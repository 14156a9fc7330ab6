//! Selected points.

use std::collections::HashSet;

use vstd::prelude::*;

use crate::glyphs::{names, GlyphPointIndex};
use crate::point_laws::{law_add, law_remove, law_replace};

verus! {

broadcast use vstd::std_specs::hash::group_hash_axioms;

/// What a new selection does to the one before it.
#[derive(Clone, Copy, Debug, PartialEq, Eq, Structural)]
pub enum SelectionModifier {
    Replace,
    Add,
    Remove,
}

/// Whether one of the points has the identifier `uuid`.
pub open spec fn has_uuid(idxs: Seq<GlyphPointIndex>, uuid: u128) -> bool {
    exists|i: int| 0 <= i < idxs.len() && (#[trigger] idxs[i]).uuid == uuid
}

/// The identifiers of the points.
pub open spec fn uuids(idxs: Seq<GlyphPointIndex>) -> Set<u128> {
    Set::new(|uuid: u128| has_uuid(idxs, uuid))
}

/// The points that are selected after `change` came to `selected`.
pub open spec fn selection_after(
    selected: Seq<GlyphPointIndex>,
    change: Seq<GlyphPointIndex>,
    modifier: SelectionModifier,
) -> Seq<GlyphPointIndex> {
    match modifier {
        SelectionModifier::Replace => change,
        SelectionModifier::Add => selected + change,
        SelectionModifier::Remove => selected.filter(
            |index: GlyphPointIndex| !change.contains(index),
        ),
    }
}

/// The identifiers that count as selected after `change` came to `selected`,
/// where those in `marked` counted before.
pub open spec fn marks_after(
    selected: Seq<GlyphPointIndex>,
    marked: Set<u128>,
    change: Seq<GlyphPointIndex>,
    modifier: SelectionModifier,
) -> Set<u128> {
    match modifier {
        SelectionModifier::Replace => uuids(change),
        SelectionModifier::Add => marked.union(uuids(selected + change)),
        SelectionModifier::Remove => marked.difference(uuids(change)),
    }
}

/// The selected points, in the order in which they were selected, and the
/// identifiers that count as selected.
#[derive(Debug)]
pub struct Selection {
    points: Vec<GlyphPointIndex>,
    uuids: HashSet<u128>,
}

impl Selection {
    /// The selected points.
    pub closed spec fn selected(self) -> Seq<GlyphPointIndex> {
        self.points@
    }

    /// The identifiers that count as selected.
    pub closed spec fn marked(self) -> Set<u128> {
        self.uuids@
    }

    /// No identifier counts as selected but that of a selected point.
    pub open spec fn wf(self) -> bool {
        self.marked().subset_of(uuids(self.selected()))
    }

    /// Nothing is selected.
    pub fn new() -> (selection: Selection)
        ensures
            selection.wf(),
            selection.selected() == Seq::<GlyphPointIndex>::empty(),
            selection.marked() == Set::<u128>::empty(),
    {
        Selection { points: Vec::new(), uuids: HashSet::new() }
    }

    /// The selected points.
    pub fn points(&self) -> (points: &Vec<GlyphPointIndex>)
        ensures
            points@ == self.selected(),
    {
        &self.points
    }

    /// The identifiers that count as selected.
    pub fn uuids(&self) -> (set: &HashSet<u128>)
        ensures
            set@ == self.marked(),
    {
        &self.uuids
    }

    /// Counts the identifier of every selected point as selected.
    fn mark_points(&mut self)
        ensures
            final(self).selected() == old(self).selected(),
            final(self).marked() == old(self).marked().union(uuids(old(self).selected())),
    {
        let mut i: usize = 0;
        assert(self.uuids@.union(uuids(self.points@.take(0))) =~= self.uuids@);
        while i < self.points.len()
            invariant
                i <= self.points@.len(),
                self.points@ == old(self).points@,
                self.uuids@ == old(self).uuids@.union(uuids(self.points@.take(i as int))),
            decreases self.points@.len() - i,
        {
            proof {
                let some = self.points@.take(i as int);
                lemma_uuids_push(some, self.points@[i as int]);
                assert(self.points@.take(i + 1) =~= some.push(self.points@[i as int]));
                assert(self.uuids@.insert(self.points@[i as int].uuid) =~= old(self).uuids@.union(
                    uuids(self.points@.take(i + 1)),
                ));
            }
            self.uuids.insert(self.points[i].uuid);
            i += 1;
        }
        assert(self.points@.take(i as int) =~= self.points@);
    }

    /// Adds `change` behind the selected points.
    fn append(&mut self, change: &[GlyphPointIndex])
        ensures
            final(self).selected() == old(self).selected() + change@,
            final(self).marked() == old(self).marked(),
    {
        let mut i: usize = 0;
        while i < change.len()
            invariant
                i <= change@.len(),
                self.points@ == old(self).points@ + change@.take(i as int),
                self.uuids@ == old(self).uuids@,
            decreases change@.len() - i,
        {
            assert(change@.take(i + 1) =~= change@.take(i as int).push(change@[i as int]));
            self.points.push(change[i]);
            i += 1;
        }
        assert(change@.take(i as int) =~= change@);
    }

    /// Keeps the selected points that `change` does not name.
    fn drop_points(&mut self, change: &[GlyphPointIndex])
        ensures
            final(self).selected() == old(self).selected().filter(
                |index: GlyphPointIndex| !change@.contains(index),
            ),
            final(self).marked() == old(self).marked(),
    {
        let ghost stays = |index: GlyphPointIndex| !change@.contains(index);
        let mut kept: Vec<GlyphPointIndex> = Vec::new();
        let mut i: usize = 0;
        assert(self.points@.take(0) =~= Seq::empty());
        reveal(Seq::filter);
        while i < self.points.len()
            invariant
                i <= self.points@.len(),
                *self == *old(self),
                stays == (|index: GlyphPointIndex| !change@.contains(index)),
                kept@ == self.points@.take(i as int).filter(stays),
            decreases self.points@.len() - i,
        {
            let index = self.points[i];
            assert(self.points@.take(i + 1).drop_last() =~= self.points@.take(i as int));
            reveal(Seq::filter);
            if !names(change, index) {
                kept.push(index);
            }
            i += 1;
        }
        assert(self.points@.take(i as int) =~= self.points@);
        self.points = kept;
    }

    /// No longer counts the identifiers of `change` as selected.
    fn unmark(&mut self, change: &[GlyphPointIndex])
        ensures
            final(self).selected() == old(self).selected(),
            final(self).marked() == old(self).marked().difference(uuids(change@)),
    {
        let mut i: usize = 0;
        assert(self.uuids@.difference(uuids(change@.take(0))) =~= self.uuids@);
        while i < change.len()
            invariant
                i <= change@.len(),
                self.points@ == old(self).points@,
                self.uuids@ == old(self).uuids@.difference(uuids(change@.take(i as int))),
            decreases change@.len() - i,
        {
            proof {
                let some = change@.take(i as int);
                lemma_uuids_push(some, change@[i as int]);
                assert(change@.take(i + 1) =~= some.push(change@[i as int]));
                assert(self.uuids@.remove(change@[i as int].uuid) =~= old(self).uuids@.difference(
                    uuids(change@.take(i + 1)),
                ));
            }
            self.uuids.remove(&change[i].uuid);
            i += 1;
        }
        assert(change@.take(i as int) =~= change@);
    }

    /// Brings `change` to the selection: it replaces what was selected, comes
    /// on top of it, or is taken out of it.
    pub fn set(&mut self, change: &[GlyphPointIndex], modifier: SelectionModifier)
        requires
            old(self).wf(),
        ensures
            final(self).wf(),
            final(self).selected() == selection_after(old(self).selected(), change@, modifier),
            final(self).marked() == marks_after(
                old(self).selected(),
                old(self).marked(),
                change@,
                modifier,
            ),
            modifier is Replace ==> final(self).selected() == change@,
            modifier is Replace ==> forall|uuid: u128| #[trigger]
                final(self).marked().contains(uuid) <==> exists|i: int|
                    0 <= i < change@.len() && (#[trigger] change@[i]).uuid == uuid,
            modifier is Add ==> final(self).selected().len()
                == old(self).selected().len() + change@.len(),
            modifier is Add ==> forall|i: int|
                0 <= i < old(self).selected().len() ==> (#[trigger] final(self).selected()[i])
                    == old(self).selected()[i],
            modifier is Add ==> forall|i: int|
                0 <= i < change@.len()
                    ==> final(self).selected()[old(self).selected().len() + i]
                    == (#[trigger] change@[i]),
            modifier is Add ==> forall|uuid: u128| #[trigger]
                final(self).marked().contains(uuid)
                    <==> old(self).marked().contains(uuid) || (exists|i: int|
                    0 <= i < old(self).selected().len()
                        && (#[trigger] old(self).selected()[i]).uuid == uuid) || (exists|
                    i: int,
                |
                    0 <= i < change@.len() && (#[trigger] change@[i]).uuid == uuid),
            modifier is Remove ==> forall|index: GlyphPointIndex| #[trigger]
                final(self).selected().contains(index)
                    <==> old(self).selected().contains(index) && !change@.contains(index),
            modifier is Remove ==> forall|uuid: u128| #[trigger]
                final(self).marked().contains(uuid) <==> old(self).marked().contains(uuid)
                    && forall|i: int|
                    0 <= i < change@.len() ==> (#[trigger] change@[i]).uuid != uuid,
    {
        match modifier {
            SelectionModifier::Replace => {
                self.points.clear();
                self.uuids.clear();
                self.append(change);
                self.mark_points();
                assert(self.selected() =~= change@);
                assert(self.marked() =~= uuids(change@));
            },
            SelectionModifier::Add => {
                self.append(change);
                self.mark_points();
            },
            SelectionModifier::Remove => {
                self.drop_points(change);
                self.unmark(change);
            },
        }
        proof {
            let (selected, marked) = (old(self).selected(), old(self).marked());
            lemma_marks_stay_selected(selected, marked, change@, modifier);
            match modifier {
                SelectionModifier::Replace => law_replace(selected, marked, change@),
                SelectionModifier::Add => law_add(selected, marked, change@),
                SelectionModifier::Remove => {
                    let at = law_remove(selected, marked, change@);
                    let kept = self.selected();
                    assert forall|index: GlyphPointIndex| #[trigger]
                        kept.contains(index) <==> selected.contains(index) && !change@.contains(
                            index,
                        ) by {
                        if kept.contains(index) {
                            let i = kept.index_of(index);
                            assert(selected[at[i]] == index);
                        }
                        if selected.contains(index) && !change@.contains(index) {
                            let p = selected.index_of(index);
                            assert(at.contains(p));
                            assert(kept[at.index_of(p)] == index);
                        }
                    }
                },
            }
        }
    }
}

/// One more point adds its own identifier and no other.
proof fn lemma_uuids_push(idxs: Seq<GlyphPointIndex>, index: GlyphPointIndex)
    ensures
        uuids(idxs.push(index)) == uuids(idxs).insert(index.uuid),
{
    let more = idxs.push(index);
    assert forall|uuid: u128| has_uuid(more, uuid) == (has_uuid(idxs, uuid) || uuid
        == index.uuid) by {
        if has_uuid(idxs, uuid) {
            let i = choose|i: int| 0 <= i < idxs.len() && (#[trigger] idxs[i]).uuid == uuid;
            assert(more[i].uuid == uuid);
        }
        if has_uuid(more, uuid) && uuid != index.uuid {
            let i = choose|i: int| 0 <= i < more.len() && (#[trigger] more[i]).uuid == uuid;
            assert(idxs[i].uuid == uuid);
        }
        assert(more[idxs.len() as int].uuid == index.uuid);
    }
    assert(uuids(more) =~= uuids(idxs).insert(index.uuid));
}

/// Whatever comes to a selection, no identifier counts as selected afterwards
/// but that of a selected point, if it was so before.
pub proof fn lemma_marks_stay_selected(
    selected: Seq<GlyphPointIndex>,
    marked: Set<u128>,
    change: Seq<GlyphPointIndex>,
    modifier: SelectionModifier,
)
    requires
        marked.subset_of(uuids(selected)),
    ensures
        marks_after(selected, marked, change, modifier).subset_of(
            uuids(selection_after(selected, change, modifier)),
        ),
{
    let marks = marks_after(selected, marked, change, modifier);
    let after = selection_after(selected, change, modifier);
    assert forall|uuid: u128| marks.contains(uuid) implies uuids(after).contains(uuid) by {
        if modifier == SelectionModifier::Add && marked.contains(uuid) {
            let i = choose|i: int| 0 <= i < selected.len() && (#[trigger] selected[i]).uuid == uuid;
            assert(after[i].uuid == uuid);
        }
        if modifier == SelectionModifier::Remove {
            assert(has_uuid(selected, uuid));
            let i = choose|i: int| 0 <= i < selected.len() && (#[trigger] selected[i]).uuid == uuid;
            let stays = |index: GlyphPointIndex| !change.contains(index);
            if change.contains(selected[i]) {
                let j = change.index_of(selected[i]);
                assert(change[j].uuid == uuid);
            }
            selected.lemma_filter_contains(stays, i);
            let j = after.index_of(selected[i]);
            assert(after[j].uuid == uuid);
        }
    }
}

} // verus!
