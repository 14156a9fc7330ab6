//! What holds of single points: which index they have, where the table has them,
//! and how they come to a selection and to a stamp.

use vstd::prelude::*;

use crate::action::{item_id, points_id};
use crate::glyphs::{Contour, Curve, Glyph, GlyphPointIndex, Point};
use crate::range_query::{indices, insert_all, mentions};
use crate::selection::{marks_after, selection_after, SelectionModifier};
use crate::state::{chosen_in, contours_of, lemma_contours_of};

verus! {

/// Entries that are written into a table: of those for one index, the last one
/// counts. An index that none is for stays as it was.
pub proof fn law_written(
    places: Map<GlyphPointIndex, Point>,
    entries: Seq<(GlyphPointIndex, Point)>,
)
    ensures
        forall|i: int|
            #![trigger entries[i]]
            0 <= i < entries.len() && (forall|j: int|
                i < j < entries.len() ==> (#[trigger] entries[j]).0 != entries[i].0)
                ==> insert_all(places, entries).dom().contains(entries[i].0) && insert_all(
                places,
                entries,
            )[entries[i].0] == entries[i].1,
        forall|i: int|
            0 <= i < entries.len() ==> insert_all(places, entries).dom().contains(
                (#[trigger] entries[i]).0,
            ),
        forall|index: GlyphPointIndex|
            (forall|i: int| 0 <= i < entries.len() ==> (#[trigger] entries[i]).0 != index) ==> (
            #[trigger] insert_all(places, entries).dom().contains(index)) == places.dom().contains(
                index,
            ),
        forall|index: GlyphPointIndex|
            (forall|i: int| 0 <= i < entries.len() ==> (#[trigger] entries[i]).0 != index) ==> (
            #[trigger] insert_all(places, entries)[index]) == places[index],
    decreases entries.len(),
{
    if entries.len() > 0 {
        let rest = entries.drop_last();
        law_written(places, rest);
        let table = insert_all(places, rest);
        assert forall|i: int|
            #![trigger entries[i]]
            0 <= i < entries.len() && (forall|j: int|
                i < j < entries.len() ==> (#[trigger] entries[j]).0 != entries[i].0) implies
            insert_all(places, entries).dom().contains(entries[i].0) && insert_all(
            places,
            entries,
        )[entries[i].0] == entries[i].1 by {
            if i < rest.len() {
                assert(rest[i] == entries[i]);
                assert(entries[entries.len() - 1].0 != entries[i].0);
                assert forall|j: int| i < j < rest.len() implies (#[trigger] rest[j]).0
                    != rest[i].0 by {
                    assert(entries[j].0 != entries[i].0);
                }
            }
        }
        assert forall|i: int| 0 <= i < entries.len() implies insert_all(
            places,
            entries,
        ).dom().contains((#[trigger] entries[i]).0) by {
            if i < rest.len() {
                assert(rest[i] == entries[i]);
            }
        }
        assert forall|index: GlyphPointIndex|
            (forall|i: int| 0 <= i < entries.len() ==> (#[trigger] entries[i]).0 != index) implies (
        #[trigger] insert_all(places, entries).dom().contains(index)) == places.dom().contains(
            index,
        ) by {
            assert(entries[entries.len() - 1].0 != index);
            assert forall|i: int| 0 <= i < rest.len() implies (#[trigger] rest[i]).0 != index by {
                assert(entries[i].0 != index);
            }
            assert(table.dom().contains(index) == places.dom().contains(index));
        }
        assert forall|index: GlyphPointIndex|
            (forall|i: int| 0 <= i < entries.len() ==> (#[trigger] entries[i]).0 != index) implies (
        #[trigger] insert_all(places, entries)[index]) == places[index] by {
            assert(entries[entries.len() - 1].0 != index);
            assert forall|i: int| 0 <= i < rest.len() implies (#[trigger] rest[i]).0 != index by {
                assert(entries[i].0 != index);
            }
            assert(table[index] == places[index]);
        }
    }
}

/// Entries that are taken out of a table: afterwards it has none of their indices,
/// and all others as before.
pub proof fn law_taken_out(
    places: Map<GlyphPointIndex, Point>,
    entries: Seq<(GlyphPointIndex, Point)>,
)
    ensures
        forall|index: GlyphPointIndex| #[trigger]
            places.remove_keys(indices(entries)).dom().contains(index) <==> places.dom().contains(
                index,
            ) && forall|i: int| 0 <= i < entries.len() ==> (#[trigger] entries[i]).0 != index,
        forall|index: GlyphPointIndex|
            places.remove_keys(indices(entries)).dom().contains(index) ==> (
            #[trigger] places.remove_keys(indices(entries))[index]) == places[index],
{
    assert forall|index: GlyphPointIndex| #[trigger]
        places.remove_keys(indices(entries)).dom().contains(index) <==> places.dom().contains(index)
            && forall|i: int| 0 <= i < entries.len() ==> (#[trigger] entries[i]).0 != index by {
        assert(indices(entries).contains(index) == mentions(entries, index));
    }
}

/// How many points the first `k` curves have.
pub open spec fn points_before(curves: Seq<Curve>, k: int) -> int
    decreases k,
{
    if k <= 0 {
        0
    } else {
        points_before(curves, k - 1) + curves[k - 1].points@.len()
    }
}

/// The entries of a contour are its points, curve by curve: each under the contour,
/// its own curve and its own identifier, at its own position.
pub proof fn law_contour_entries(contour: Contour, contour_index: usize)
    ensures
        contour.entries(contour_index).len() == points_before(
            contour.curves@,
            contour.curves@.len() as int,
        ),
        forall|k: int, j: int|
            #![trigger contour.curves@[k].points@[j]]
            0 <= k < contour.curves@.len() && 0 <= j < contour.curves@[k].points@.len() ==> {
                &&& 0 <= points_before(contour.curves@, k) + j < contour.entries(
                    contour_index,
                ).len()
                &&& contour.entries(contour_index)[points_before(contour.curves@, k) + j] == (
                    GlyphPointIndex {
                        contour_index,
                        curve_index: k as usize,
                        uuid: contour.curves@[k].points@[j].uuid,
                    },
                    contour.curves@[k].points@[j].position,
                )
            },
{
    lemma_entries_below(contour, contour_index, contour.curves@.len());
}

proof fn lemma_entries_below(contour: Contour, contour_index: usize, n: nat)
    requires
        n <= contour.curves@.len(),
    ensures
        contour.entries_below(contour_index, n).len() == points_before(contour.curves@, n as int),
        forall|k: int, j: int|
            #![trigger contour.curves@[k].points@[j]]
            0 <= k < n && 0 <= j < contour.curves@[k].points@.len() ==> {
                &&& 0 <= points_before(contour.curves@, k) + j < contour.entries_below(
                    contour_index,
                    n,
                ).len()
                &&& contour.entries_below(contour_index, n)[points_before(contour.curves@, k) + j]
                    == (
                    GlyphPointIndex {
                        contour_index,
                        curve_index: k as usize,
                        uuid: contour.curves@[k].points@[j].uuid,
                    },
                    contour.curves@[k].points@[j].position,
                )
            },
    decreases n,
{
    if n > 0 {
        lemma_entries_below(contour, contour_index, (n - 1) as nat);
        let rest = contour.entries_below(contour_index, (n - 1) as nat);
        let last = contour.curves@[n - 1].entries(contour_index, (n - 1) as usize);
        assert(contour.entries_below(contour_index, n) == rest + last);
        assert(last.len() == contour.curves@[n - 1].points@.len());
    }
}

/// Every entry of a contour is that of one of its points.
pub proof fn law_contour_entry(contour: Contour, contour_index: usize, i: int) -> (at: (int, int))
    requires
        0 <= i < contour.entries(contour_index).len(),
    ensures
        0 <= at.0 < contour.curves@.len(),
        0 <= at.1 < contour.curves@[at.0].points@.len(),
        i == points_before(contour.curves@, at.0) + at.1,
        contour.entries(contour_index)[i] == (
            GlyphPointIndex {
                contour_index,
                curve_index: at.0 as usize,
                uuid: contour.curves@[at.0].points@[at.1].uuid,
            },
            contour.curves@[at.0].points@[at.1].position,
        ),
{
    law_contour_entries(contour, contour_index);
    let at = lemma_spot(contour.curves@, contour.curves@.len() as int, i);
    assert(contour.curves@[at.0].points@[at.1] == contour.curves@[at.0].points@[at.1]);
    at
}

/// The curve, and the place on it, that a place among all points belongs to.
proof fn lemma_spot(curves: Seq<Curve>, n: int, i: int) -> (at: (int, int))
    requires
        0 <= n <= curves.len(),
        0 <= i < points_before(curves, n),
    ensures
        0 <= at.0 < n,
        0 <= at.1 < curves[at.0].points@.len(),
        points_before(curves, at.0) + at.1 == i,
    decreases n,
{
    if i >= points_before(curves, n - 1) {
        (n - 1, i - points_before(curves, n - 1))
    } else {
        lemma_spot(curves, n - 1, i)
    }
}

/// How many points the first `c` contours have.
pub open spec fn points_before_contour(contours: Seq<Contour>, c: int) -> int
    decreases c,
{
    if c <= 0 {
        0
    } else {
        points_before_contour(contours, c - 1) + points_before(
            contours[c - 1].curves@,
            contours[c - 1].curves@.len() as int,
        )
    }
}

proof fn lemma_glyph_entries_len(glyph: Glyph, n: nat)
    requires
        n <= glyph.contours@.len(),
    ensures
        glyph.entries_below(n).len() == points_before_contour(glyph.contours@, n as int),
    decreases n,
{
    if n > 0 {
        lemma_glyph_entries_len(glyph, (n - 1) as nat);
        law_contour_entries(glyph.contours@[n - 1], (n - 1) as usize);
    }
}

/// The entries of the first `n` contours of a glyph are their points, contour by
/// contour and curve by curve: each under its own contour, curve and identifier,
/// at its own position.
pub proof fn law_glyph_entries(glyph: Glyph, n: nat, c: int, k: int, j: int)
    requires
        0 <= c < n <= glyph.contours@.len(),
        0 <= k < glyph.contours@[c].curves@.len(),
        0 <= j < glyph.contours@[c].curves@[k].points@.len(),
    ensures
        0 <= points_before_contour(glyph.contours@, c) + points_before(
            glyph.contours@[c].curves@,
            k,
        ) + j < glyph.entries_below(n).len(),
        glyph.entries_below(n)[points_before_contour(glyph.contours@, c) + points_before(
            glyph.contours@[c].curves@,
            k,
        ) + j] == (
            GlyphPointIndex {
                contour_index: c as usize,
                curve_index: k as usize,
                uuid: glyph.contours@[c].curves@[k].points@[j].uuid,
            },
            glyph.contours@[c].curves@[k].points@[j].position,
        ),
    decreases n,
{
    let rest = glyph.entries_below((n - 1) as nat);
    let contour = glyph.contours@[n - 1];
    let last = contour.entries((n - 1) as usize);
    lemma_glyph_entries_len(glyph, (n - 1) as nat);
    assert(glyph.entries_below(n) == rest + last);
    if c == n - 1 {
        law_contour_entries(contour, (n - 1) as usize);
        let p = contour.curves@[k].points@[j];
        let within = points_before(contour.curves@, k) + j;
        assert((rest + last)[rest.len() + within] == last[within]);
    } else {
        law_glyph_entries(glyph, (n - 1) as nat, c, k, j);
    }
}

/// The contour that a place among all points belongs to.
proof fn lemma_contour_spot(contours: Seq<Contour>, n: int, i: int) -> (c: int)
    requires
        0 <= n <= contours.len(),
        0 <= i < points_before_contour(contours, n),
    ensures
        0 <= c < n,
        0 <= i - points_before_contour(contours, c) < points_before(
            contours[c].curves@,
            contours[c].curves@.len() as int,
        ),
    decreases n,
{
    if i >= points_before_contour(contours, n - 1) {
        n - 1
    } else {
        lemma_contour_spot(contours, n - 1, i)
    }
}

/// Every entry of a glyph is that of one of its points.
pub proof fn law_glyph_entry(glyph: Glyph, i: int) -> (at: (int, int, int))
    requires
        0 <= i < glyph.entries().len(),
    ensures
        0 <= at.0 < glyph.contours@.len(),
        0 <= at.1 < glyph.contours@[at.0].curves@.len(),
        0 <= at.2 < glyph.contours@[at.0].curves@[at.1].points@.len(),
        i == points_before_contour(glyph.contours@, at.0) + points_before(
            glyph.contours@[at.0].curves@,
            at.1,
        ) + at.2,
        glyph.entries()[i] == (
            GlyphPointIndex {
                contour_index: at.0 as usize,
                curve_index: at.1 as usize,
                uuid: glyph.contours@[at.0].curves@[at.1].points@[at.2].uuid,
            },
            glyph.contours@[at.0].curves@[at.1].points@[at.2].position,
        ),
{
    let n = glyph.contours@.len();
    lemma_glyph_entries_len(glyph, n);
    let c = lemma_contour_spot(glyph.contours@, n as int, i);
    let curves = glyph.contours@[c].curves@;
    let at = lemma_spot(
        curves,
        curves.len() as int,
        i - points_before_contour(glyph.contours@, c),
    );
    law_glyph_entries(glyph, n, c, at.0, at.1);
    (c, at.0, at.1)
}

/// The table of a new session has every point of the glyph, under its contour, its
/// curve and its identifier. It has it at its own position, unless a later point of
/// its curve has the same identifier.
pub proof fn law_table_has_point(glyph: Glyph, c: int, k: int, j: int)
    requires
        0 <= c < glyph.contours@.len(),
        0 <= k < glyph.contours@[c].curves@.len(),
        0 <= j < glyph.contours@[c].curves@[k].points@.len(),
    ensures
        insert_all(Map::empty(), glyph.entries()).dom().contains(
            GlyphPointIndex {
                contour_index: c as usize,
                curve_index: k as usize,
                uuid: glyph.contours@[c].curves@[k].points@[j].uuid,
            },
        ),
        (forall|other: int|
            j < other < glyph.contours@[c].curves@[k].points@.len() ==> (
            #[trigger] glyph.contours@[c].curves@[k].points@[other]).uuid
                != glyph.contours@[c].curves@[k].points@[j].uuid) ==> insert_all(
            Map::empty(),
            glyph.entries(),
        )[
            GlyphPointIndex {
                contour_index: c as usize,
                curve_index: k as usize,
                uuid: glyph.contours@[c].curves@[k].points@[j].uuid,
            }
        ] == glyph.contours@[c].curves@[k].points@[j].position,
{
    let entries = glyph.entries();
    let at = points_before_contour(glyph.contours@, c) + points_before(
        glyph.contours@[c].curves@,
        k,
    ) + j;
    law_glyph_entries(glyph, glyph.contours@.len(), c, k, j);
    law_written(Map::empty(), entries);
    assert(entries[at].0.uuid == glyph.contours@[c].curves@[k].points@[j].uuid);
    if forall|other: int|
        j < other < glyph.contours@[c].curves@[k].points@.len() ==> (
        #[trigger] glyph.contours@[c].curves@[k].points@[other]).uuid
            != glyph.contours@[c].curves@[k].points@[j].uuid {
        assert forall|i: int| at < i < entries.len() implies (#[trigger] entries[i]).0
            != entries[at].0 by {
            let place = law_glyph_entry(glyph, i);
            assert(glyph.contours.len() == glyph.contours@.len());
            assert(glyph.contours@[place.0].curves.len() == glyph.contours@[place.0].curves@.len());
            assert(glyph.contours@[c].curves.len() == glyph.contours@[c].curves@.len());
            if entries[i].0 == entries[at].0 {
                assert(place.0 == c && place.1 == k);
                assert(glyph.contours@[c].curves@[k].points@[place.2].uuid
                    != glyph.contours@[c].curves@[k].points@[j].uuid);
            }
        }
    }
}

/// The table of a new session has nothing but points of the glyph.
pub proof fn law_table_has_no_more(glyph: Glyph, index: GlyphPointIndex) -> (at: (int, int, int))
    requires
        insert_all(Map::empty(), glyph.entries()).dom().contains(index),
    ensures
        0 <= at.0 < glyph.contours@.len(),
        0 <= at.1 < glyph.contours@[at.0].curves@.len(),
        0 <= at.2 < glyph.contours@[at.0].curves@[at.1].points@.len(),
        index.contour_index == at.0,
        index.curve_index == at.1,
        index.uuid == glyph.contours@[at.0].curves@[at.1].points@[at.2].uuid,
{
    let entries = glyph.entries();
    law_written(Map::empty(), entries);
    if forall|i: int| 0 <= i < entries.len() ==> (#[trigger] entries[i]).0 != index {
        assert(!insert_all(Map::empty(), entries).dom().contains(index));
    }
    let i = choose|i: int| 0 <= i < entries.len() && (#[trigger] entries[i]).0 == index;
    let at = law_glyph_entry(glyph, i);
    assert(glyph.contours.len() == glyph.contours@.len());
    assert(glyph.contours@[at.0].curves.len() == glyph.contours@[at.0].curves@.len());
    at
}

/// What is left of a list when only some items are kept: where they were in it.
proof fn lemma_kept<A>(s: Seq<A>, pred: spec_fn(A) -> bool) -> (at: Seq<int>)
    ensures
        at.len() == s.filter(pred).len(),
        forall|i: int|
            0 <= i < at.len() ==> 0 <= #[trigger] at[i] < s.len() && pred(s[at[i]]) && s.filter(
                pred,
            )[i] == s[at[i]],
        forall|i: int, j: int| 0 <= i < j < at.len() ==> #[trigger] at[i] < #[trigger] at[j],
        forall|p: int| 0 <= p < s.len() && pred(#[trigger] s[p]) ==> at.contains(p),
    decreases s.len(),
{
    reveal(Seq::filter);
    if s.len() == 0 {
        Seq::empty()
    } else {
        let rest = s.drop_last();
        let before = lemma_kept(rest, pred);
        let at = if pred(s.last()) {
            before.push(s.len() - 1)
        } else {
            before
        };
        assert forall|p: int| 0 <= p < s.len() && pred(#[trigger] s[p]) implies at.contains(p) by {
            if p < rest.len() {
                assert(rest[p] == s[p]);
                assert(at[before.index_of(p)] == p);
            } else {
                assert(at[before.len() as int] == p);
            }
        }
        at
    }
}

/// What is chosen from a contour are the entries that are named: all of them, none
/// else, and in their order. `at` says where among the entries they are.
pub proof fn law_chosen(
    contour: Contour,
    contour_index: usize,
    idxs: Seq<GlyphPointIndex>,
) -> (at: Seq<int>)
    ensures
        at.len() == contour.chosen(contour_index, idxs).len(),
        forall|i: int|
            0 <= i < at.len() ==> 0 <= #[trigger] at[i] < contour.entries(contour_index).len()
                && idxs.contains(contour.entries(contour_index)[at[i]].0) && contour.chosen(
                contour_index,
                idxs,
            )[i] == contour.entries(contour_index)[at[i]],
        forall|i: int, j: int| 0 <= i < j < at.len() ==> #[trigger] at[i] < #[trigger] at[j],
        forall|p: int|
            0 <= p < contour.entries(contour_index).len() && idxs.contains(
                (#[trigger] contour.entries(contour_index)[p]).0,
            ) ==> at.contains(p),
{
    lemma_kept(
        contour.entries(contour_index),
        |e: (GlyphPointIndex, Point)| idxs.contains(e.0),
    )
}

/// The points of two lists of contours are chosen one list after the other.
pub proof fn law_chosen_in(
    glyph: Glyph,
    contours: Seq<usize>,
    contour_index: usize,
    idxs: Seq<GlyphPointIndex>,
)
    ensures
        chosen_in(glyph, Seq::empty(), idxs).len() == 0,
        chosen_in(glyph, contours.push(contour_index), idxs) == chosen_in(glyph, contours, idxs)
            + glyph.contours@[contour_index as int].chosen(contour_index, idxs),
{
    assert(contours.push(contour_index).drop_last() =~= contours);
}

/// The contours of a list of points are those that one of them belongs to, each
/// once, in the order in which they first come up.
pub proof fn law_contours(idxs: Seq<GlyphPointIndex>, index: GlyphPointIndex)
    ensures
        contours_of(idxs).no_duplicates(),
        forall|i: int|
            0 <= i < idxs.len() ==> contours_of(idxs).contains((#[trigger] idxs[i]).contour_index),
        forall|c: usize| #[trigger]
            contours_of(idxs).contains(c) ==> exists|i: int|
                0 <= i < idxs.len() && (#[trigger] idxs[i]).contour_index == c,
        contours_of(idxs.push(index)) == contours_of(idxs) || contours_of(idxs.push(index))
            == contours_of(idxs).push(index.contour_index),
{
    lemma_contours_of(idxs);
    assert(idxs.push(index).drop_last() =~= idxs);
}

/// Points that replace a selection are the selection, in their order, whatever was
/// selected before, and the identifiers that count as selected are theirs.
pub proof fn law_replace(
    selected: Seq<GlyphPointIndex>,
    marked: Set<u128>,
    change: Seq<GlyphPointIndex>,
)
    ensures
        selection_after(selected, change, SelectionModifier::Replace) == change,
        forall|uuid: u128| #[trigger]
            marks_after(selected, marked, change, SelectionModifier::Replace).contains(uuid)
                <==> exists|i: int| 0 <= i < change.len() && (#[trigger] change[i]).uuid == uuid,
        forall|other: Seq<GlyphPointIndex>, marks: Set<u128>|
            selection_after(other, change, SelectionModifier::Replace) == selection_after(
                selected,
                change,
                SelectionModifier::Replace,
            ) && #[trigger] marks_after(other, marks, change, SelectionModifier::Replace)
                == marks_after(selected, marked, change, SelectionModifier::Replace),
{
}

/// Points that are added to a selection come behind what is selected, which stays.
/// An identifier counts as selected if it did before or if a selected point has it.
pub proof fn law_add(
    selected: Seq<GlyphPointIndex>,
    marked: Set<u128>,
    change: Seq<GlyphPointIndex>,
)
    ensures
        selection_after(selected, change, SelectionModifier::Add).len() == selected.len()
            + change.len(),
        forall|i: int|
            0 <= i < selected.len() ==> (#[trigger] selection_after(
                selected,
                change,
                SelectionModifier::Add,
            )[i]) == selected[i],
        forall|i: int|
            0 <= i < change.len() ==> selection_after(selected, change, SelectionModifier::Add)[
                selected.len() + i
            ] == #[trigger] change[i],
        forall|uuid: u128| #[trigger]
            marks_after(selected, marked, change, SelectionModifier::Add).contains(uuid) <==> (
            marked.contains(uuid) || (exists|i: int|
                0 <= i < selected.len() && (#[trigger] selected[i]).uuid == uuid) || (exists|i: int|
                0 <= i < change.len() && (#[trigger] change[i]).uuid == uuid)),
{
    let all = selected + change;
    assert forall|uuid: u128| #[trigger]
        marks_after(selected, marked, change, SelectionModifier::Add).contains(uuid) <==> (
    marked.contains(uuid) || (exists|i: int|
        0 <= i < selected.len() && (#[trigger] selected[i]).uuid == uuid) || (exists|i: int|
        0 <= i < change.len() && (#[trigger] change[i]).uuid == uuid)) by {
        if exists|i: int| 0 <= i < all.len() && (#[trigger] all[i]).uuid == uuid {
            let i = choose|i: int| 0 <= i < all.len() && (#[trigger] all[i]).uuid == uuid;
            if i < selected.len() {
                assert(selected[i].uuid == uuid);
            } else {
                assert(change[i - selected.len()].uuid == uuid);
            }
        }
        if exists|i: int| 0 <= i < selected.len() && (#[trigger] selected[i]).uuid == uuid {
            let i = choose|i: int| 0 <= i < selected.len() && (#[trigger] selected[i]).uuid == uuid;
            assert(all[i].uuid == uuid);
        }
        if exists|i: int| 0 <= i < change.len() && (#[trigger] change[i]).uuid == uuid {
            let i = choose|i: int| 0 <= i < change.len() && (#[trigger] change[i]).uuid == uuid;
            assert(all[selected.len() + i].uuid == uuid);
        }
    }
}

/// Points that are taken out of a selection leave all others in it, in their order.
/// Of the identifiers that count as selected, theirs no longer do. `at` says where
/// in the selection the others were.
pub proof fn law_remove(
    selected: Seq<GlyphPointIndex>,
    marked: Set<u128>,
    change: Seq<GlyphPointIndex>,
) -> (at: Seq<int>)
    ensures
        at.len() == selection_after(selected, change, SelectionModifier::Remove).len(),
        forall|i: int|
            0 <= i < at.len() ==> 0 <= #[trigger] at[i] < selected.len() && !change.contains(
                selected[at[i]],
            ) && selection_after(selected, change, SelectionModifier::Remove)[i]
                == selected[at[i]],
        forall|i: int, j: int| 0 <= i < j < at.len() ==> #[trigger] at[i] < #[trigger] at[j],
        forall|p: int|
            0 <= p < selected.len() && !change.contains(#[trigger] selected[p]) ==> at.contains(p),
        forall|uuid: u128| #[trigger]
            marks_after(selected, marked, change, SelectionModifier::Remove).contains(uuid) <==> (
            marked.contains(uuid) && forall|i: int|
                0 <= i < change.len() ==> (#[trigger] change[i]).uuid != uuid),
{
    lemma_kept(selected, |index: GlyphPointIndex| !change.contains(index))
}

/// An index as bytes: those of the number of its contour, then those of the number
/// of its curve, each from the least significant on, then those of its identifier
/// from the most significant on.
pub proof fn law_index_bytes(index: GlyphPointIndex)
    ensures
        index.bytes().len() == 32,
        index.bytes().subrange(0, 8) == vstd::bytes::spec_u64_to_le_bytes(
            index.contour_index as u64,
        ),
        index.bytes().subrange(8, 16) == vstd::bytes::spec_u64_to_le_bytes(
            index.curve_index as u64,
        ),
        forall|i: int|
            0 <= i < 16 ==> (#[trigger] index.bytes()[16 + i])
                == vstd::bytes::spec_u128_to_le_bytes(index.uuid)[15 - i],
{
    vstd::bytes::lemma_auto_spec_u64_to_from_le_bytes();
    vstd::bytes::lemma_auto_spec_u128_to_from_le_bytes();
    assert(index.bytes().subrange(0, 8) =~= vstd::bytes::spec_u64_to_le_bytes(
        index.contour_index as u64,
    ));
    assert(index.bytes().subrange(8, 16) =~= vstd::bytes::spec_u64_to_le_bytes(
        index.curve_index as u64,
    ));
}

/// The stamp id of points holds the bytes of each of them, in their order, and
/// nothing else.
pub proof fn law_points_id(idxs: Seq<GlyphPointIndex>)
    ensures
        points_id(idxs).len() == 32 * idxs.len(),
        forall|i: int|
            0 <= i < idxs.len() ==> points_id(idxs).subrange(32 * i, 32 * i + 32) == (
            #[trigger] idxs[i]).bytes(),
    decreases idxs.len(),
{
    if idxs.len() > 0 {
        let rest = idxs.drop_last();
        law_points_id(rest);
        law_index_bytes(idxs.last());
        assert forall|i: int| 0 <= i < idxs.len() implies points_id(idxs).subrange(
            32 * i,
            32 * i + 32,
        ) == (#[trigger] idxs[i]).bytes() by {
            if i < rest.len() {
                assert(rest[i] == idxs[i]);
                assert(points_id(idxs).subrange(32 * i, 32 * i + 32) =~= points_id(rest).subrange(
                    32 * i,
                    32 * i + 32,
                ));
            } else {
                assert(points_id(idxs).subrange(32 * i, 32 * i + 32) =~= idxs[i].bytes());
            }
        }
    }
}

/// The stamp id of an item is one byte: what is left of its position over multiples
/// of two hundred and fifty-six.
pub proof fn law_item_id(idx: usize)
    ensures
        item_id(idx).len() == 1,
        item_id(idx)[0] as int == idx as int % 256,
{
}

} // verus!
