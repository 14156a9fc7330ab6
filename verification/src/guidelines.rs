//! Guidelines: objects that are made once and keep what they are, and the list
//! of those that a glyph has.

use vstd::prelude::*;

use crate::glyphs::Real;

verus! {

/// A guideline: a line through a point at an angle. The identifier tells it
/// from others, and whatever else it carries is found by it.
#[derive(Clone, Copy, Debug, PartialEq, Eq, Hash, Structural)]
pub struct Guideline {
    pub identifier: u128,
    pub x: Real,
    pub y: Real,
    pub angle: Real,
}

/// Where a guideline goes.
#[derive(Clone, Copy, Debug, PartialEq, Eq, Structural)]
pub struct Placement {
    pub x: Real,
    pub y: Real,
    pub angle: Real,
}

impl Guideline {
    /// This guideline, put elsewhere.
    pub open spec fn put(self, placement: Placement) -> Guideline {
        Guideline {
            identifier: self.identifier,
            x: placement.x,
            y: placement.y,
            angle: placement.angle,
        }
    }
}

/// The guidelines of a glyph. A guideline is an object: once made, it goes by a
/// number, whether it is on the list or not. What is done to it while it is on
/// the list it keeps when it is taken off, and comes back with when it is put on
/// again. An object can be on the list more than once.
#[derive(Clone, Debug)]
pub struct Guidelines {
    objects: Vec<Guideline>,
    listed: Vec<usize>,
}

impl View for Guidelines {
    type V = Seq<Guideline>;

    /// The guidelines on the list, as they are now.
    open spec fn view(&self) -> Seq<Guideline> {
        self.numbers().map_values(|number: usize| self.objects()[number as int])
    }
}

impl Guidelines {
    /// All objects that were made, by number, as they are now.
    pub closed spec fn objects(self) -> Seq<Guideline> {
        self.objects@
    }

    /// The numbers of the objects on the list.
    pub closed spec fn numbers(self) -> Seq<usize> {
        self.listed@
    }

    /// What is on the list was made.
    pub open spec fn wf(self) -> bool {
        forall|i: int|
            0 <= i < self.numbers().len() ==> #[trigger] self.numbers()[i] < self.objects().len()
    }

    /// Makes an object of each guideline and lists them in the same order.
    pub fn new(guidelines: Vec<Guideline>) -> (made: Guidelines)
        ensures
            made.wf(),
            made.objects() == guidelines@,
            made.numbers() == Seq::new(guidelines@.len(), |i: int| i as usize),
            made@ == guidelines@,
    {
        let mut listed: Vec<usize> = Vec::new();
        let mut i: usize = 0;
        while i < guidelines.len()
            invariant
                i <= guidelines@.len(),
                listed@ == Seq::new(i as nat, |j: int| j as usize),
            decreases guidelines@.len() - i,
        {
            listed.push(i);
            i += 1;
            assert(listed@ =~= Seq::new(i as nat, |j: int| j as usize));
        }
        assert(guidelines.len() == guidelines@.len());
        let made = Guidelines { objects: guidelines, listed };
        assert(made@ =~= guidelines@);
        made
    }

    /// How many guidelines are on the list.
    pub fn len(&self) -> (len: usize)
        ensures
            len == self@.len(),
    {
        self.listed.len()
    }

    /// The `idx`-th guideline on the list, as it is now.
    pub fn get(&self, idx: usize) -> (guideline: Guideline)
        requires
            self.wf(),
            idx < self@.len(),
        ensures
            guideline == self@[idx as int],
    {
        assert(self.numbers()[idx as int] < self.objects().len());
        self.objects[self.listed[idx]]
    }

    /// The guidelines on the list, as they are now.
    pub fn to_vec(&self) -> (guidelines: Vec<Guideline>)
        requires
            self.wf(),
        ensures
            guidelines@ == self@,
    {
        let mut guidelines: Vec<Guideline> = Vec::new();
        let mut i: usize = 0;
        while i < self.listed.len()
            invariant
                self.wf(),
                i <= self@.len(),
                guidelines@ == self@.take(i as int),
            decreases self@.len() - i,
        {
            assert(self@.take(i + 1) =~= self@.take(i as int).push(self@[i as int]));
            guidelines.push(self.get(i));
            i += 1;
        }
        assert(self@.take(i as int) =~= self@);
        guidelines
    }

    /// Whether an object goes by the number.
    pub fn has_made(&self, number: usize) -> (made: bool)
        ensures
            made == (number < self.objects().len()),
    {
        number < self.objects.len()
    }

    /// Makes an object. It is not on the list yet.
    pub fn make(&mut self, guideline: Guideline) -> (number: usize)
        requires
            old(self).wf(),
        ensures
            final(self).wf(),
            number == old(self).objects().len(),
            final(self).objects() == old(self).objects().push(guideline),
            final(self).numbers() == old(self).numbers(),
    {
        let number = self.objects.len();
        self.objects.push(guideline);
        assert forall|i: int| 0 <= i < self.numbers().len() implies #[trigger] self.numbers()[i]
            < self.objects().len() by {
            assert(old(self).numbers()[i] < old(self).objects().len());
        }
        number
    }

    /// Puts an object on the list, behind the others.
    pub fn list(&mut self, number: usize)
        requires
            old(self).wf(),
            number < old(self).objects().len(),
        ensures
            final(self).wf(),
            final(self).objects() == old(self).objects(),
            final(self).numbers() == old(self).numbers().push(number),
    {
        self.listed.push(number);
        assert forall|i: int| 0 <= i < self.numbers().len() implies #[trigger] self.numbers()[i]
            < self.objects().len() by {
            assert(i < old(self).numbers().len() ==> old(self).numbers()[i]
                < old(self).objects().len());
        }
    }

    /// Takes the last object off the list, if there is one.
    pub fn unlist_last(&mut self)
        requires
            old(self).wf(),
        ensures
            final(self).wf(),
            final(self).objects() == old(self).objects(),
            final(self).numbers() == without_last(old(self).numbers()),
    {
        let _ = self.listed.pop();
        assert(self.listed@ =~= without_last(old(self).listed@));
        assert forall|i: int| 0 <= i < self.numbers().len() implies #[trigger] self.numbers()[i]
            < self.objects().len() by {
            assert(self.numbers()[i] == old(self).numbers()[i]);
        }
    }

    /// Takes the `idx`-th object off the list.
    pub fn unlist(&mut self, idx: usize)
        requires
            old(self).wf(),
            idx < old(self)@.len(),
        ensures
            final(self).wf(),
            final(self).objects() == old(self).objects(),
            final(self).numbers() == old(self).numbers().remove(idx as int),
    {
        let _ = self.listed.remove(idx);
        assert forall|i: int| 0 <= i < self.numbers().len() implies #[trigger] self.numbers()[i]
            < self.objects().len() by {
            assert(self.numbers()[i] == old(self).numbers()[if i < idx {
                i
            } else {
                i + 1
            }]);
        }
    }

    /// Puts the `idx`-th guideline on the list elsewhere.
    pub fn place(&mut self, idx: usize, placement: Placement)
        requires
            old(self).wf(),
            idx < old(self)@.len(),
        ensures
            final(self).wf(),
            final(self).objects() == old(self).placed(idx as int, placement),
            final(self).numbers() == old(self).numbers(),
    {
        assert(self.numbers()[idx as int] < self.objects().len());
        let number = self.listed[idx];
        let guideline = Guideline {
            identifier: self.objects[number].identifier,
            x: placement.x,
            y: placement.y,
            angle: placement.angle,
        };
        self.objects.set(number, guideline);
    }

    /// The objects, with the `idx`-th on the list put elsewhere.
    pub open spec fn placed(self, idx: int, placement: Placement) -> Seq<Guideline> {
        let number = self.numbers()[idx] as int;
        self.objects().update(number, self.objects()[number].put(placement))
    }
}

/// Numbers do not run out.
pub proof fn lemma_objects_len(guidelines: Guidelines)
    ensures
        guidelines.objects().len() <= usize::MAX,
{
    assert(guidelines.objects.len() == guidelines.objects@.len());
}

/// The list without its last item, where it has one.
pub open spec fn without_last(numbers: Seq<usize>) -> Seq<usize> {
    if numbers.len() == 0 {
        numbers
    } else {
        numbers.drop_last()
    }
}

} // verus!
