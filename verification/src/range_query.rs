//! Where the points of a glyph lie, by index: what range queries are answered
//! from.

use vstd::prelude::*;

use crate::glyphs::{GlyphPointIndex, Point};

verus! {

/// `places` after each entry was written into it, in order.
pub open spec fn insert_all(
    places: Map<GlyphPointIndex, Point>,
    entries: Seq<(GlyphPointIndex, Point)>,
) -> Map<GlyphPointIndex, Point>
    decreases entries.len(),
{
    if entries.len() == 0 {
        places
    } else {
        insert_all(places, entries.drop_last()).insert(entries.last().0, entries.last().1)
    }
}

/// Whether one of the entries is for `index`.
pub open spec fn mentions(entries: Seq<(GlyphPointIndex, Point)>, index: GlyphPointIndex) -> bool {
    exists|i: int| 0 <= i < entries.len() && #[trigger] entries[i].0 == index
}

/// The indices that the entries are for.
pub open spec fn indices(entries: Seq<(GlyphPointIndex, Point)>) -> Set<GlyphPointIndex> {
    Set::new(|index: GlyphPointIndex| mentions(entries, index))
}

/// No two entries are for the same index.
pub open spec fn distinct(entries: Seq<(GlyphPointIndex, Point)>) -> bool {
    forall|i: int, j: int|
        0 <= i < entries.len() && 0 <= j < entries.len() && i != j ==> (#[trigger] entries[i]).0 != (
        #[trigger] entries[j]).0
}

/// Positions by index. An index has one position: to add it again is to move
/// it.
#[derive(Clone, Debug)]
pub struct PointTable {
    entries: Vec<(GlyphPointIndex, Point)>,
}

impl View for PointTable {
    type V = Map<GlyphPointIndex, Point>;

    closed spec fn view(&self) -> Map<GlyphPointIndex, Point> {
        Map::new(
            |index: GlyphPointIndex| mentions(self.entries@, index),
            |index: GlyphPointIndex| self.entries@[self.spot(index)].1,
        )
    }
}

impl PointTable {
    /// No index is held twice.
    pub closed spec fn wf(self) -> bool {
        distinct(self.entries@)
    }

    spec fn spot(self, index: GlyphPointIndex) -> int {
        choose|i: int| 0 <= i < self.entries@.len() && #[trigger] self.entries@[i].0 == index
    }

    /// A table that holds nothing.
    pub fn new() -> (table: PointTable)
        ensures
            table.wf(),
            table@ == Map::<GlyphPointIndex, Point>::empty(),
    {
        let table = PointTable { entries: Vec::new() };
        assert(table@ =~= Map::<GlyphPointIndex, Point>::empty());
        table
    }

    /// Where `index` stands in the list of entries, if it is there.
    fn find(&self, index: GlyphPointIndex) -> (at: Option<usize>)
        ensures
            at matches Some(i) ==> i < self.entries@.len() && self.entries@[i as int].0 == index,
            at is None ==> !mentions(self.entries@, index),
    {
        let mut i: usize = 0;
        while i < self.entries.len()
            invariant
                i <= self.entries@.len(),
                forall|j: int| 0 <= j < i ==> (#[trigger] self.entries@[j]).0 != index,
            decreases self.entries@.len() - i,
        {
            if self.entries[i].0 == index {
                return Some(i);
            }
            i += 1;
        }
        None
    }

    /// Puts `index` at `position`, wherever it was before.
    pub fn add(&mut self, index: GlyphPointIndex, position: Point)
        requires
            old(self).wf(),
        ensures
            final(self).wf(),
            final(self)@ == old(self)@.insert(index, position),
    {
        match self.find(index) {
            Some(at) => {
                self.entries.set(at, (index, position));
                proof {
                    let before = old(self).entries@;
                    let after = self.entries@;
                    assert(after[at as int].0 == index);
                    assert(before[at as int].0 == index);
                    assert forall|k: GlyphPointIndex| mentions(after, k) == mentions(before, k) by {
                        if mentions(after, k) {
                            assert(before[self.spot(k)].0 == k);
                        }
                        if mentions(before, k) {
                            assert(after[old(self).spot(k)].0 == k);
                        }
                    }
                }
            },
            None => {
                self.entries.push((index, position));
                proof {
                    let before = old(self).entries@;
                    let after = self.entries@;
                    assert(after[before.len() as int].0 == index);
                    assert forall|k: GlyphPointIndex| k != index implies mentions(after, k)
                        == mentions(before, k) by {
                        if mentions(after, k) {
                            assert(before[self.spot(k)].0 == k);
                        }
                        if mentions(before, k) {
                            assert(after[old(self).spot(k)].0 == k);
                        }
                    }
                }
            },
        }
        assert(self@ =~= old(self)@.insert(index, position));
    }

    /// Takes `index` out. Where it is not held, nothing changes.
    pub fn remove(&mut self, index: GlyphPointIndex)
        requires
            old(self).wf(),
        ensures
            final(self).wf(),
            final(self)@ == old(self)@.remove(index),
    {
        if let Some(at) = self.find(index) {
            self.entries.remove(at);
            proof {
                let before = old(self).entries@;
                let after = self.entries@;
                assert(before[at as int].0 == index);
                assert forall|k: GlyphPointIndex| mentions(after, k) == (k != index && mentions(
                    before,
                    k,
                )) by {
                    if mentions(after, k) {
                        let i = self.spot(k);
                        assert(before[if i < at { i } else { i + 1 }].0 == k);
                    }
                    if mentions(before, k) && k != index {
                        let i = old(self).spot(k);
                        assert(after[if i < at { i } else { i - 1 }].0 == k);
                    }
                }
            }
        }
        assert(self@ =~= old(self)@.remove(index));
    }

    /// Where `index` lies, if it is held.
    pub fn get(&self, index: GlyphPointIndex) -> (position: Option<Point>)
        requires
            self.wf(),
        ensures
            position == (if self@.contains_key(index) {
                Some(self@[index])
            } else {
                None
            }),
    {
        match self.find(index) {
            Some(at) => {
                proof {
                    assert(self.entries@[at as int].0 == index);
                }
                Some(self.entries[at].1)
            },
            None => None,
        }
    }

    /// Writes every entry into the table, in order.
    pub fn add_all(&mut self, entries: &[(GlyphPointIndex, Point)])
        requires
            old(self).wf(),
        ensures
            final(self).wf(),
            final(self)@ == insert_all(old(self)@, entries@),
    {
        let mut i: usize = 0;
        assert(entries@.take(0) =~= Seq::empty());
        while i < entries.len()
            invariant
                i <= entries@.len(),
                self.wf(),
                self@ == insert_all(old(self)@, entries@.take(i as int)),
            decreases entries@.len() - i,
        {
            assert(entries@.take(i + 1).drop_last() =~= entries@.take(i as int));
            self.add(entries[i].0, entries[i].1);
            i += 1;
        }
        assert(entries@.take(i as int) =~= entries@);
    }

    /// Takes the index of every entry out of the table.
    pub fn remove_all(&mut self, entries: &[(GlyphPointIndex, Point)])
        requires
            old(self).wf(),
        ensures
            final(self).wf(),
            final(self)@ == old(self)@.remove_keys(indices(entries@)),
    {
        let mut i: usize = 0;
        assert(self@.remove_keys(indices(entries@.take(0))) =~= self@);
        while i < entries.len()
            invariant
                i <= entries@.len(),
                self.wf(),
                self@ == old(self)@.remove_keys(indices(entries@.take(i as int))),
            decreases entries@.len() - i,
        {
            proof {
                let some = entries@.take(i as int);
                let more = entries@.take(i + 1);
                assert(more =~= some.push(entries@[i as int]));
                assert forall|k: GlyphPointIndex| mentions(more, k) == (mentions(some, k) || k
                    == entries@[i as int].0) by {
                    lemma_mentions_push(some, entries@[i as int], k);
                }
                assert(self@.remove(entries@[i as int].0) =~= old(self)@.remove_keys(
                    indices(more),
                ));
            }
            self.remove(entries[i].0);
            i += 1;
        }
        assert(entries@.take(i as int) =~= entries@);
    }
}

/// One more entry adds its own index and no other.
pub proof fn lemma_mentions_push(
    entries: Seq<(GlyphPointIndex, Point)>,
    entry: (GlyphPointIndex, Point),
    index: GlyphPointIndex,
)
    ensures
        mentions(entries.push(entry), index) == (mentions(entries, index) || index == entry.0),
{
    let more = entries.push(entry);
    if mentions(entries, index) {
        let i = choose|i: int| 0 <= i < entries.len() && #[trigger] entries[i].0 == index;
        assert(more[i].0 == index);
    }
    if mentions(more, index) && index != entry.0 {
        let i = choose|i: int| 0 <= i < more.len() && #[trigger] more[i].0 == index;
        assert(entries[i].0 == index);
    }
    assert(more[entries.len() as int].0 == entry.0);
}

/// What writing entries does to one index: it is held afterwards if it was
/// held before or is written; its position is that of the table before only
/// where it is not written.
pub proof fn lemma_insert_all_at(
    places: Map<GlyphPointIndex, Point>,
    other: Map<GlyphPointIndex, Point>,
    entries: Seq<(GlyphPointIndex, Point)>,
    index: GlyphPointIndex,
)
    ensures
        insert_all(places, entries).contains_key(index) == (places.contains_key(index) || mentions(
            entries,
            index,
        )),
        !mentions(entries, index) ==> insert_all(places, entries)[index] == places[index],
        mentions(entries, index) ==> insert_all(places, entries)[index] == insert_all(
            other,
            entries,
        )[index],
    decreases entries.len(),
{
    if entries.len() > 0 {
        let rest = entries.drop_last();
        assert(entries =~= rest.push(entries.last()));
        lemma_insert_all_at(places, other, rest, index);
        lemma_mentions_push(rest, entries.last(), index);
    }
}

/// Where an index ends up is the position of one of its entries.
pub proof fn lemma_insert_all_from(
    places: Map<GlyphPointIndex, Point>,
    entries: Seq<(GlyphPointIndex, Point)>,
    index: GlyphPointIndex,
)
    requires
        mentions(entries, index),
    ensures
        entries.contains((index, insert_all(places, entries)[index])),
    decreases entries.len(),
{
    let rest = entries.drop_last();
    assert(entries =~= rest.push(entries.last()));
    lemma_mentions_push(rest, entries.last(), index);
    if entries.last().0 == index {
        assert(entries[entries.len() - 1] == (index, insert_all(places, entries)[index]));
    } else {
        lemma_insert_all_from(places, rest, index);
        let entry = (index, insert_all(places, rest)[index]);
        assert(entries[rest.index_of(entry)] == entry);
    }
}

/// To write a joined list is to write its parts, one after the other.
pub proof fn lemma_insert_all_add(
    places: Map<GlyphPointIndex, Point>,
    first: Seq<(GlyphPointIndex, Point)>,
    second: Seq<(GlyphPointIndex, Point)>,
)
    ensures
        insert_all(places, first + second) == insert_all(insert_all(places, first), second),
    decreases second.len(),
{
    if second.len() == 0 {
        assert(first + second =~= first);
    } else {
        assert((first + second).drop_last() =~= first + second.drop_last());
        lemma_insert_all_add(places, first, second.drop_last());
    }
}

/// Where no index is written twice, each ends up at the position of its entry.
pub proof fn lemma_insert_all_distinct(
    places: Map<GlyphPointIndex, Point>,
    entries: Seq<(GlyphPointIndex, Point)>,
    i: int,
)
    requires
        distinct(entries),
        0 <= i < entries.len(),
    ensures
        insert_all(places, entries).contains_key(entries[i].0),
        insert_all(places, entries)[entries[i].0] == entries[i].1,
    decreases entries.len(),
{
    if i < entries.len() - 1 {
        let rest = entries.drop_last();
        assert(distinct(rest)) by {
            assert forall|a: int, b: int| 0 <= a < rest.len() && 0 <= b < rest.len() && a != b
                implies (#[trigger] rest[a]).0 != (#[trigger] rest[b]).0 by {
                assert(entries[a].0 != entries[b].0);
            }
        }
        lemma_insert_all_distinct(places, rest, i);
        assert(entries[i].0 != entries[entries.len() - 1].0);
    }
}

} // verus!
