//! What holds of an editing session as a whole, across the changes that are
//! made to it.

use vstd::prelude::*;

use crate::action::{item_id, points_id, Change};
use crate::glyphs::{Contour, CurvePoint, Glyph, GlyphPointIndex, Matrix, Point};
use crate::glyphs::spec_uuid_bytes;
use crate::guidelines::{lemma_objects_len, without_last, Guideline, Placement};
use crate::range_query::{distinct, indices, insert_all, mentions};
use crate::range_query::{lemma_insert_all_add, lemma_insert_all_at, lemma_insert_all_distinct};
use crate::history::{can_redo, can_undo, is_redone, is_undone, Outside};
use crate::range_query::{lemma_insert_all_from, lemma_mentions_push};
use crate::selection::{has_uuid, lemma_marks_stay_selected, marks_after, selection_after};
use crate::selection::{uuids, SelectionModifier};
use crate::state::{chosen_in, contours_of, in_glyph, within, GlyphState};
use crate::state::{lemma_contours_of, lemma_has_transformed};

verus! {

/// The table of points holds the points of the glyph and nothing else, each at
/// its position.
pub open spec fn in_step(state: GlyphState) -> bool {
    state.kd_tree@ == insert_all(Map::empty(), state.glyph.entries())
}

/// Where no two points of a glyph share an index, a table that is in step with
/// it holds exactly the indices of its points, each at the position of its
/// point.
pub proof fn law_in_step(state: GlyphState)
    requires
        in_step(state),
        distinct(state.glyph.entries()),
    ensures
        state.kd_tree@.dom() == indices(state.glyph.entries()),
        forall|i: int|
            0 <= i < state.glyph.entries().len() ==> state.kd_tree@[(
            #[trigger] state.glyph.entries()[i]).0] == state.glyph.entries()[i].1,
{
    let entries = state.glyph.entries();
    assert forall|k: GlyphPointIndex|
        state.kd_tree@.dom().contains(k) == indices(entries).contains(k) by {
        lemma_insert_all_at(Map::empty(), Map::empty(), entries, k);
    }
    assert(state.kd_tree@.dom() =~= indices(entries));
    assert forall|i: int| 0 <= i < entries.len() implies state.kd_tree@[(
    #[trigger] entries[i]).0] == entries[i].1 by {
        lemma_insert_all_distinct(Map::empty(), entries, i);
    }
}

/// An entry, with the position that `places` has for its index, if it has one.
pub open spec fn shifted(
    entry: (GlyphPointIndex, Point),
    places: Map<GlyphPointIndex, Point>,
) -> (GlyphPointIndex, Point) {
    if places.contains_key(entry.0) {
        (entry.0, places[entry.0])
    } else {
        entry
    }
}

/// To move points of a contour is to shift its entries.
proof fn lemma_contour_shifted(
    after: Contour,
    before: Contour,
    contour_index: usize,
    places: Map<GlyphPointIndex, Point>,
    n: nat,
)
    requires
        after.is_moved(before, contour_index, places),
        n <= before.curves@.len(),
    ensures
        after.entries_below(contour_index, n) == before.entries_below(contour_index, n).map_values(
            |e: (GlyphPointIndex, Point)| shifted(e, places),
        ),
    decreases n,
{
    let f = |e: (GlyphPointIndex, Point)| shifted(e, places);
    if n == 0 {
        assert(after.entries_below(contour_index, n) =~= before.entries_below(
            contour_index,
            n,
        ).map_values(f));
    } else {
        let k = (n - 1) as usize;
        lemma_contour_shifted(after, before, contour_index, places, (n - 1) as nat);
        let old_curve = before.curves@[n - 1].entries(contour_index, k);
        let new_curve = after.curves@[n - 1].entries(contour_index, k);
        assert(after.curves@[n - 1].is_moved(before.curves@[n - 1], contour_index, k, places));
        assert(new_curve =~= old_curve.map_values(f));
        assert((before.entries_below(contour_index, (n - 1) as nat) + old_curve).map_values(f)
            =~= before.entries_below(contour_index, (n - 1) as nat).map_values(f)
            + old_curve.map_values(f));
    }
}

/// To move points of a glyph is to shift its entries.
proof fn lemma_glyph_shifted(
    after: Glyph,
    before: Glyph,
    places: Map<GlyphPointIndex, Point>,
    n: nat,
)
    requires
        after.is_moved(before, places),
        n <= before.contours@.len(),
    ensures
        after.entries_below(n) == before.entries_below(n).map_values(
            |e: (GlyphPointIndex, Point)| shifted(e, places),
        ),
    decreases n,
{
    let f = |e: (GlyphPointIndex, Point)| shifted(e, places);
    if n == 0 {
        assert(after.entries_below(n) =~= before.entries_below(n).map_values(f));
    } else {
        let c = (n - 1) as usize;
        lemma_glyph_shifted(after, before, places, (n - 1) as nat);
        assert(after.contours@[n - 1].is_moved(before.contours@[n - 1], c, places));
        lemma_contour_shifted(
            after.contours@[n - 1],
            before.contours@[n - 1],
            c,
            places,
            before.contours@[n - 1].curves@.len(),
        );
        assert((before.entries_below((n - 1) as nat) + before.contours@[n - 1].entries(
            c,
        )).map_values(f) =~= before.entries_below((n - 1) as nat).map_values(f)
            + before.contours@[n - 1].entries(c).map_values(f));
    }
}

/// To write shifted entries is to write the entries and then, for those of their
/// indices that `places` holds, what it has for them.
proof fn lemma_insert_shifted(
    entries: Seq<(GlyphPointIndex, Point)>,
    places: Map<GlyphPointIndex, Point>,
    k: GlyphPointIndex,
)
    ensures
        ({
            let after = insert_all(
                Map::empty(),
                entries.map_values(|e: (GlyphPointIndex, Point)| shifted(e, places)),
            );
            &&& after.contains_key(k) == mentions(entries, k)
            &&& mentions(entries, k) && places.contains_key(k) ==> after[k] == places[k]
            &&& mentions(entries, k) && !places.contains_key(k) ==> after[k] == insert_all(
                Map::empty(),
                entries,
            )[k]
        }),
    decreases entries.len(),
{
    let f = |e: (GlyphPointIndex, Point)| shifted(e, places);
    if entries.len() > 0 {
        let rest = entries.drop_last();
        lemma_insert_shifted(rest, places, k);
        assert(entries =~= rest.push(entries.last()));
        lemma_mentions_push(rest, entries.last(), k);
        assert(entries.map_values(f).drop_last() =~= rest.map_values(f));
    }
}

/// Moving points of the glyph keeps the table in step with it.
pub proof fn law_moving_keeps_step(
    before: GlyphState,
    after: GlyphState,
    moved: Seq<(GlyphPointIndex, Point)>,
)
    requires
        in_step(before),
        after.has_moved(before, moved),
        forall|i: int|
            0 <= i < moved.len() ==> mentions(before.glyph.entries(), (#[trigger] moved[i]).0),
    ensures
        in_step(after),
{
    let places = insert_all(Map::empty(), moved);
    let entries = before.glyph.entries();
    lemma_glyph_shifted(after.glyph, before.glyph, places, before.glyph.contours@.len());
    let shifted_entries = after.glyph.entries();
    let target = insert_all(Map::empty(), shifted_entries);
    assert forall|k: GlyphPointIndex|
        #![trigger after.kd_tree@.dom().contains(k)]
        #![trigger after.kd_tree@[k]]
        after.kd_tree@.dom().contains(k) == target.dom().contains(k) && (
        after.kd_tree@.dom().contains(k) ==> after.kd_tree@[k] == target[k]) by {
        lemma_insert_shifted(entries, places, k);
        lemma_insert_all_at(before.kd_tree@, Map::empty(), moved, k);
        lemma_insert_all_at(Map::empty(), Map::empty(), moved, k);
        lemma_insert_all_at(Map::empty(), Map::empty(), entries, k);
        if mentions(moved, k) {
            let i = choose|i: int| 0 <= i < moved.len() && #[trigger] moved[i].0 == k;
            assert(mentions(entries, moved[i].0));
        }
    }
    assert(after.kd_tree@ =~= target);
}

/// A transformation of named points keeps the table in step with the glyph,
/// wherever it puts them.
pub proof fn law_transforming_keeps_step(
    before: GlyphState,
    after: GlyphState,
    idxs: Seq<GlyphPointIndex>,
    moved: Seq<(GlyphPointIndex, Point)>,
)
    requires
        in_step(before),
        in_glyph(before.glyph, idxs),
        moved.len() == chosen_in(before.glyph, contours_of(idxs), idxs).len(),
        forall|i: int|
            0 <= i < moved.len() ==> (#[trigger] moved[i]).0 == chosen_in(
                before.glyph,
                contours_of(idxs),
                idxs,
            )[i].0,
        after.has_moved(before, moved),
    ensures
        in_step(after),
{
    let chosen = chosen_in(before.glyph, contours_of(idxs), idxs);
    let entries = before.glyph.entries();
    assert forall|i: int| 0 <= i < moved.len() implies mentions(
        entries,
        (#[trigger] moved[i]).0,
    ) by {
        assert(chosen.contains(chosen[i]));
        law_points_to_transform(before.glyph, idxs, chosen[i]);
        assert(entries[entries.index_of(chosen[i])].0 == moved[i].0);
    }
    law_moving_keeps_step(before, after, moved);
}

/// Where only points of named contours are moved, every other contour stays as it
/// is: none of its points is moved, in the glyph or in the table.
pub proof fn law_moving_keeps_other_contours(
    before: GlyphState,
    after: GlyphState,
    idxs: Seq<GlyphPointIndex>,
    moved: Seq<(GlyphPointIndex, Point)>,
)
    requires
        after.has_moved(before, moved),
        within(moved, idxs),
    ensures
        after.has_transformed(before, idxs, moved),
{
    lemma_has_transformed(before, after, idxs, moved);
}

/// The points that a transformation takes hold of belong to the contours that it
/// names. So it leaves every other contour as it is, in the glyph and in the
/// table.
pub proof fn law_transforming_keeps_other_contours(
    before: GlyphState,
    after: GlyphState,
    idxs: Seq<GlyphPointIndex>,
    moved: Seq<(GlyphPointIndex, Point)>,
)
    requires
        in_glyph(before.glyph, idxs),
        moved.len() == chosen_in(before.glyph, contours_of(idxs), idxs).len(),
        forall|i: int|
            0 <= i < moved.len() ==> (#[trigger] moved[i]).0 == chosen_in(
                before.glyph,
                contours_of(idxs),
                idxs,
            )[i].0,
        after.has_moved(before, moved),
    ensures
        within(moved, idxs),
        after.has_transformed(before, idxs, moved),
{
    let chosen = chosen_in(before.glyph, contours_of(idxs), idxs);
    assert forall|i: int| 0 <= i < moved.len() implies contours_of(idxs).contains(
        (#[trigger] moved[i]).0.contour_index,
    ) by {
        assert(chosen.contains(chosen[i]));
        law_points_to_transform(before.glyph, idxs, chosen[i]);
        lemma_contours_of(idxs);
        let at = idxs.index_of(moved[i].0);
        assert(idxs[at].contour_index == moved[i].0.contour_index);
    }
    law_moving_keeps_other_contours(before, after, idxs, moved);
}

/// Selecting points keeps the table in step with the glyph.
pub proof fn law_selecting_keeps_step(before: GlyphState, after: GlyphState)
    requires
        in_step(before),
        after == (GlyphState { selection: after.selection, ..before }),
    ensures
        in_step(after),
{
}

/// The entries of a glyph are those of its contours.
proof fn lemma_entries_of_contours(one: Glyph, other: Glyph, n: nat)
    requires
        n <= one.contours@.len(),
        n <= other.contours@.len(),
        forall|c: int| 0 <= c < n ==> #[trigger] one.contours@[c] == other.contours@[c],
    ensures
        one.entries_below(n) == other.entries_below(n),
    decreases n,
{
    if n > 0 {
        lemma_entries_of_contours(one, other, (n - 1) as nat);
        assert(one.contours@[n - 1] == other.contours@[n - 1]);
    }
}

/// Whatever happens to guidelines, the table stays in step with the glyph.
pub proof fn law_guidelines_keep_step(
    before: GlyphState,
    after: GlyphState,
    objects: Seq<Guideline>,
    numbers: Seq<usize>,
)
    requires
        in_step(before),
        after.has_guidelines(before, objects, numbers),
    ensures
        in_step(after),
{
    lemma_entries_of_contours(after.glyph, before.glyph, before.glyph.contours@.len());
}

/// Once the points of a contour are in the table and the contour is the glyph's
/// last one, the table is in step with the glyph again.
pub proof fn law_adding_contour_keeps_step(
    before: GlyphState,
    after: GlyphState,
    contour: Contour,
    contour_index: usize,
    glyph: Glyph,
)
    requires
        in_step(before),
        contour_index == before.glyph.contours@.len(),
        after.has_places(before, insert_all(before.kd_tree@, contour.entries(contour_index))),
        glyph.contours@ == before.glyph.contours@.push(contour),
    ensures
        after.kd_tree@ == insert_all(Map::empty(), glyph.entries()),
{
    let n = before.glyph.contours@.len();
    lemma_entries_of_contours(glyph, before.glyph, n);
    assert(glyph.entries() == glyph.entries_below(n) + glyph.contours@[n as int].entries(
        contour_index,
    ));
    lemma_insert_all_add(Map::empty(), before.glyph.entries(), contour.entries(contour_index));
}

/// Undoing the addition of a contour takes back what it did to the table, where
/// none of the contour's points was in the table before.
pub proof fn law_undo_add_contour(
    before: GlyphState,
    added: GlyphState,
    after: GlyphState,
    contour: Contour,
    contour_index: usize,
)
    requires
        added.has_places(before, insert_all(before.kd_tree@, contour.entries(contour_index))),
        after.has_places(
            added,
            added.kd_tree@.remove_keys(indices(contour.entries(contour_index))),
        ),
        indices(contour.entries(contour_index)).disjoint(before.kd_tree@.dom()),
    ensures
        after.has_places(before, before.kd_tree@),
{
    let entries = contour.entries(contour_index);
    assert forall|k: GlyphPointIndex|
        #![trigger after.kd_tree@.dom().contains(k)]
        #![trigger after.kd_tree@[k]]
        after.kd_tree@.dom().contains(k) == before.kd_tree@.dom().contains(k) && (
        after.kd_tree@.dom().contains(k) ==> after.kd_tree@[k] == before.kd_tree@[k]) by {
        lemma_insert_all_at(before.kd_tree@, Map::empty(), entries, k);
        if mentions(entries, k) {
            assert(indices(entries).contains(k));
        }
    }
    assert(after.kd_tree@ =~= before.kd_tree@);
}

/// Undoing the addition of a contour and redoing it ends where the addition had
/// ended.
pub proof fn law_redo_add_contour(
    before: GlyphState,
    added: GlyphState,
    undone: GlyphState,
    after: GlyphState,
    contour: Contour,
    contour_index: usize,
)
    requires
        added.has_places(before, insert_all(before.kd_tree@, contour.entries(contour_index))),
        undone.has_places(
            added,
            added.kd_tree@.remove_keys(indices(contour.entries(contour_index))),
        ),
        after.has_places(undone, insert_all(undone.kd_tree@, contour.entries(contour_index))),
    ensures
        after.has_places(added, added.kd_tree@),
{
    let entries = contour.entries(contour_index);
    assert forall|k: GlyphPointIndex|
        #![trigger after.kd_tree@.dom().contains(k)]
        #![trigger after.kd_tree@[k]]
        after.kd_tree@.dom().contains(k) == added.kd_tree@.dom().contains(k) && (
        after.kd_tree@.dom().contains(k) ==> after.kd_tree@[k] == added.kd_tree@[k]) by {
        lemma_insert_all_at(before.kd_tree@, undone.kd_tree@, entries, k);
        lemma_insert_all_at(undone.kd_tree@, before.kd_tree@, entries, k);
    }
    assert(after.kd_tree@ =~= added.kd_tree@);
}

/// Making a guideline for a change changes nothing on the list.
pub proof fn law_making_keeps_list(before: GlyphState, after: GlyphState, guideline: Guideline)
    requires
        before.wf(),
        after.has_guidelines(
            before,
            before.glyph.guidelines.objects().push(guideline),
            before.glyph.guidelines.numbers(),
        ),
    ensures
        after.glyph.guidelines@ == before.glyph.guidelines@,
{
    assert forall|i: int| 0 <= i < before.glyph.guidelines@.len() implies (
    #[trigger] after.glyph.guidelines@[i]) == before.glyph.guidelines@[i] by {
        assert(before.glyph.guidelines.numbers()[i] < before.glyph.guidelines.objects().len());
    }
    assert(after.glyph.guidelines@ =~= before.glyph.guidelines@);
}

/// Undoing a new guideline takes it away again and leaves the others as they
/// were.
pub proof fn law_undo_new_guideline(
    before: GlyphState,
    added: GlyphState,
    after: GlyphState,
    number: usize,
)
    requires
        added.has_guidelines(
            before,
            before.glyph.guidelines.objects(),
            before.glyph.guidelines.numbers().push(number),
        ),
        after.has_guidelines(
            added,
            added.glyph.guidelines.objects(),
            without_last(added.glyph.guidelines.numbers()),
        ),
    ensures
        after.has_guidelines(
            before,
            before.glyph.guidelines.objects(),
            before.glyph.guidelines.numbers(),
        ),
        after.glyph.guidelines@ == before.glyph.guidelines@,
{
    assert(before.glyph.guidelines.numbers().push(number).drop_last()
        =~= before.glyph.guidelines.numbers());
    assert(after.glyph.guidelines@ =~= before.glyph.guidelines@);
}

/// Redoing a new guideline brings it back as it last was: whatever was done to
/// the guidelines on the list between doing the change and undoing it, the list
/// ends as it was before the undoing. A guideline that was transformed comes back
/// transformed.
pub proof fn law_redo_new_guideline(
    before: GlyphState,
    added: GlyphState,
    changed: GlyphState,
    undone: GlyphState,
    after: GlyphState,
    number: usize,
    objects: Seq<Guideline>,
)
    requires
        before.wf(),
        number < before.glyph.guidelines.objects().len(),
        added.has_guidelines(
            before,
            before.glyph.guidelines.objects(),
            before.glyph.guidelines.numbers().push(number),
        ),
        changed.has_guidelines(added, objects, added.glyph.guidelines.numbers()),
        undone.has_guidelines(
            changed,
            changed.glyph.guidelines.objects(),
            without_last(changed.glyph.guidelines.numbers()),
        ),
        after.has_guidelines(
            undone,
            undone.glyph.guidelines.objects(),
            undone.glyph.guidelines.numbers().push(number),
        ),
    ensures
        after.has_guidelines(
            changed,
            changed.glyph.guidelines.objects(),
            changed.glyph.guidelines.numbers(),
        ),
        after.glyph.guidelines@ == changed.glyph.guidelines@,
        after.glyph.guidelines@.last() == objects[number as int],
        forall|placement: Placement|
            objects == #[trigger] added.glyph.guidelines.placed(
                added.glyph.guidelines@.len() - 1,
                placement,
            ) ==> after.glyph.guidelines@.last() == added.glyph.guidelines@.last().put(placement),
{
    let numbers = before.glyph.guidelines.numbers();
    assert(numbers.push(number).drop_last() =~= numbers);
    assert(after.glyph.guidelines@ =~= changed.glyph.guidelines@);
}

/// The list after a deletion, and after the deletion was undone.
proof fn lemma_delete_guideline(
    before: GlyphState,
    deleted: GlyphState,
    undone: GlyphState,
    idx: usize,
)
    requires
        before.wf(),
        idx < before.glyph.guidelines@.len(),
        deleted.has_guidelines(
            before,
            before.glyph.guidelines.objects(),
            before.glyph.guidelines.numbers().remove(idx as int),
        ),
        undone.has_guidelines(
            deleted,
            deleted.glyph.guidelines.objects().push(before.glyph.guidelines@[idx as int]),
            deleted.glyph.guidelines.numbers().push(
                deleted.glyph.guidelines.objects().len() as usize,
            ),
        ),
    ensures
        deleted.glyph.guidelines@ == before.glyph.guidelines@.remove(idx as int),
        undone.glyph.guidelines@ == before.glyph.guidelines@.remove(idx as int).push(
            before.glyph.guidelines@[idx as int],
        ),
{
    lemma_objects_len(deleted.glyph.guidelines);
    let rest = before.glyph.guidelines@.remove(idx as int);
    assert(deleted.glyph.guidelines@ =~= rest);
    assert forall|i: int| 0 <= i < rest.len() implies (#[trigger] undone.glyph.guidelines@[i])
        == rest[i] by {
        let from = if i < idx {
            i
        } else {
            i + 1
        };
        assert(before.glyph.guidelines.numbers()[from] < before.glyph.guidelines.objects().len());
    }
    assert(undone.glyph.guidelines@ =~= rest.push(before.glyph.guidelines@[idx as int]));
}

/// Undoing the deletion of a guideline brings the guideline back, but behind the
/// others: the guidelines are the same, and in the same order if it was the
/// last one.
pub proof fn law_undo_delete_guideline(
    before: GlyphState,
    deleted: GlyphState,
    after: GlyphState,
    idx: usize,
)
    requires
        before.wf(),
        idx < before.glyph.guidelines@.len(),
        deleted.has_guidelines(
            before,
            before.glyph.guidelines.objects(),
            before.glyph.guidelines.numbers().remove(idx as int),
        ),
        after.has_guidelines(
            deleted,
            deleted.glyph.guidelines.objects().push(before.glyph.guidelines@[idx as int]),
            deleted.glyph.guidelines.numbers().push(
                deleted.glyph.guidelines.objects().len() as usize,
            ),
        ),
    ensures
        deleted.glyph.guidelines@ == before.glyph.guidelines@.remove(idx as int),
        after.glyph.guidelines@ == deleted.glyph.guidelines@.push(
            before.glyph.guidelines@[idx as int],
        ),
        after.glyph.guidelines@.to_multiset() == before.glyph.guidelines@.to_multiset(),
        after.glyph.guidelines@.last() == before.glyph.guidelines@[idx as int],
        idx == before.glyph.guidelines@.len() - 1 ==> after.glyph.guidelines@
            == before.glyph.guidelines@,
{
    broadcast use vstd::seq_lib::group_to_multiset_ensures;

    lemma_delete_guideline(before, deleted, after, idx);
    let guidelines = before.glyph.guidelines@;
    let g = guidelines[idx as int];
    assert(guidelines.remove(idx as int).push(g).to_multiset() =~= guidelines.to_multiset());
    if idx == guidelines.len() - 1 {
        assert(guidelines.remove(idx as int).push(g) =~= guidelines);
    }
}

/// Undoing the deletion of a guideline and redoing it deletes the same guideline
/// only if that was the last one. Otherwise it deletes the one that came next,
/// and the first one stays behind the others.
pub proof fn law_redo_delete_guideline(
    before: GlyphState,
    deleted: GlyphState,
    undone: GlyphState,
    after: GlyphState,
    idx: usize,
)
    requires
        before.wf(),
        idx < before.glyph.guidelines@.len(),
        deleted.has_guidelines(
            before,
            before.glyph.guidelines.objects(),
            before.glyph.guidelines.numbers().remove(idx as int),
        ),
        undone.has_guidelines(
            deleted,
            deleted.glyph.guidelines.objects().push(before.glyph.guidelines@[idx as int]),
            deleted.glyph.guidelines.numbers().push(
                deleted.glyph.guidelines.objects().len() as usize,
            ),
        ),
        after.has_guidelines(
            undone,
            undone.glyph.guidelines.objects(),
            undone.glyph.guidelines.numbers().remove(idx as int),
        ),
    ensures
        idx == before.glyph.guidelines@.len() - 1 ==> after.glyph.guidelines@
            == deleted.glyph.guidelines@,
        idx < before.glyph.guidelines@.len() - 1 ==> after.glyph.guidelines@
            == before.glyph.guidelines@.remove(idx as int).remove(idx as int).push(
            before.glyph.guidelines@[idx as int],
        ),
{
    lemma_delete_guideline(before, deleted, undone, idx);
    let guidelines = before.glyph.guidelines@;
    let rest = guidelines.remove(idx as int);
    let back = rest.push(guidelines[idx as int]);
    assert(after.glyph.guidelines@ =~= back.remove(idx as int));
    if idx == guidelines.len() - 1 {
        assert(back.remove(idx as int) =~= rest);
    } else {
        assert(back.remove(idx as int) =~= rest.remove(idx as int).push(guidelines[idx as int]));
    }
}

/// Transforming a guideline moves it, and leaves every other guideline on the
/// list as it is.
pub proof fn law_transform_guideline(
    before: GlyphState,
    after: GlyphState,
    idx: usize,
    placement: Placement,
)
    requires
        before.wf(),
        idx < before.glyph.guidelines@.len(),
        after.has_guidelines(
            before,
            before.glyph.guidelines.placed(idx as int, placement),
            before.glyph.guidelines.numbers(),
        ),
    ensures
        after.glyph.guidelines@.len() == before.glyph.guidelines@.len(),
        after.glyph.guidelines@[idx as int] == before.glyph.guidelines@[idx as int].put(placement),
        forall|i: int|
            0 <= i < before.glyph.guidelines@.len() && before.glyph.guidelines.numbers()[i]
                != before.glyph.guidelines.numbers()[idx as int] ==> (
            #[trigger] after.glyph.guidelines@[i]) == before.glyph.guidelines@[i],
        before.glyph.guidelines.numbers().no_duplicates() ==> after.glyph.guidelines@
            == before.glyph.guidelines@.update(
            idx as int,
            before.glyph.guidelines@[idx as int].put(placement),
        ),
{
    let numbers = before.glyph.guidelines.numbers();
    assert(numbers[idx as int] < before.glyph.guidelines.objects().len());
    if numbers.no_duplicates() {
        assert(after.glyph.guidelines@ =~= before.glyph.guidelines@.update(
            idx as int,
            before.glyph.guidelines@[idx as int].put(placement),
        ));
    }
}

/// Undoing the transformation of a guideline leaves it where it was, if that is
/// where the inverse takes it.
pub proof fn law_undo_transform_guideline(
    before: GlyphState,
    transformed: GlyphState,
    after: GlyphState,
    idx: usize,
    to: Placement,
    back: Placement,
)
    requires
        before.wf(),
        idx < before.glyph.guidelines@.len(),
        before.glyph.guidelines@[idx as int] == before.glyph.guidelines@[idx as int].put(back),
        transformed.has_guidelines(
            before,
            before.glyph.guidelines.placed(idx as int, to),
            before.glyph.guidelines.numbers(),
        ),
        after.has_guidelines(
            transformed,
            transformed.glyph.guidelines.placed(idx as int, back),
            transformed.glyph.guidelines.numbers(),
        ),
    ensures
        after.has_guidelines(
            before,
            before.glyph.guidelines.objects(),
            before.glyph.guidelines.numbers(),
        ),
        after.glyph.guidelines@ == before.glyph.guidelines@,
{
    assert(before.glyph.guidelines.numbers()[idx as int]
        < before.glyph.guidelines.objects().len());
    assert(after.glyph.guidelines.objects() =~= before.glyph.guidelines.objects());
    assert(after.glyph.guidelines@ =~= before.glyph.guidelines@);
}

/// Every point of the glyph whose index `places` holds lies where it says.
pub open spec fn lie_at(glyph: Glyph, places: Map<GlyphPointIndex, Point>) -> bool {
    forall|c: int, k: int, j: int|
        glyph.has_point(c, k, j) && places.contains_key(
            glyph.point_at(c, k, j).index_in(c as usize, k as usize),
        ) ==> (#[trigger] glyph.point_at(c, k, j)).position == places[glyph.point_at(
            c,
            k,
            j,
        ).index_in(c as usize, k as usize)]
}

/// Undoing the transformation of points, where the inverse takes those that were
/// moved to where they were: every point of the glyph is where it was, and the
/// table has those that were moved at these places and all others as it had
/// them. So the table is what it was, if it had those that were moved, there.
pub proof fn law_undo_transform_points(
    before: GlyphState,
    transformed: GlyphState,
    after: GlyphState,
    moved: Seq<(GlyphPointIndex, Point)>,
    back: Seq<(GlyphPointIndex, Point)>,
)
    requires
        transformed.has_moved(before, moved),
        after.has_moved(transformed, back),
        indices(back) == indices(moved),
        lie_at(before.glyph, insert_all(Map::empty(), back)),
    ensures
        after.same_session(before),
        after.glyph.is_moved(before.glyph, Map::empty()),
        after.glyph.entries() == before.glyph.entries(),
        after.kd_tree@ == insert_all(before.kd_tree@, back),
        (forall|k: GlyphPointIndex| #[trigger]
            mentions(back, k) ==> before.kd_tree@.contains_key(k) && before.kd_tree@[k]
                == insert_all(Map::empty(), back)[k]) ==> after.kd_tree@ == before.kd_tree@,
{
    let there = insert_all(Map::empty(), moved);
    let home = insert_all(Map::empty(), back);
    let entries = before.glyph.entries();
    assert forall|k: GlyphPointIndex| mentions(back, k) == mentions(moved, k) by {
        assert(indices(back).contains(k) == mentions(back, k));
        assert(indices(moved).contains(k) == mentions(moved, k));
    }
    let table = insert_all(before.kd_tree@, back);
    assert forall|k: GlyphPointIndex|
        #![trigger after.kd_tree@.dom().contains(k)]
        #![trigger after.kd_tree@[k]]
        after.kd_tree@.dom().contains(k) == table.dom().contains(k) && (
        after.kd_tree@.dom().contains(k) ==> after.kd_tree@[k] == table[k]) by {
        lemma_insert_all_at(before.kd_tree@, Map::empty(), moved, k);
        lemma_insert_all_at(before.kd_tree@, Map::empty(), back, k);
        lemma_insert_all_at(transformed.kd_tree@, Map::empty(), back, k);
        assert(mentions(back, k) == mentions(moved, k));
    }
    assert(after.kd_tree@ =~= table);
    if forall|k: GlyphPointIndex| #[trigger]
        mentions(back, k) ==> before.kd_tree@.contains_key(k) && before.kd_tree@[k] == home[k] {
        assert forall|k: GlyphPointIndex|
            #![trigger table.dom().contains(k)]
            #![trigger table[k]]
            table.dom().contains(k) == before.kd_tree@.dom().contains(k) && (
            table.dom().contains(k) ==> table[k] == before.kd_tree@[k]) by {
            lemma_insert_all_at(before.kd_tree@, Map::empty(), back, k);
            if mentions(back, k) {
                assert(before.kd_tree@.contains_key(k));
            }
        }
        assert(table =~= before.kd_tree@);
    }
    assert forall|c: int| 0 <= c < after.glyph.contours@.len() implies (
    #[trigger] after.glyph.contours@[c]).is_moved(
        before.glyph.contours@[c],
        c as usize,
        Map::empty(),
    ) by {
        let old_contour = before.glyph.contours@[c];
        let mid_contour = transformed.glyph.contours@[c];
        let new_contour = after.glyph.contours@[c];
        assert forall|k: int| 0 <= k < new_contour.curves@.len() implies (
        #[trigger] new_contour.curves@[k]).is_moved(
            old_contour.curves@[k],
            c as usize,
            k as usize,
            Map::empty(),
        ) by {
            let old_curve = old_contour.curves@[k];
            let mid_curve = mid_contour.curves@[k];
            let new_curve = new_contour.curves@[k];
            assert(mid_curve.is_moved(old_curve, c as usize, k as usize, there));
            assert(new_curve.is_moved(mid_curve, c as usize, k as usize, home));
            assert forall|j: int| 0 <= j < old_curve.points@.len() implies (
            #[trigger] new_curve.points@[j]) == old_curve.points@[j] by {
                let p = old_curve.points@[j];
                let index = p.index_in(c as usize, k as usize);
                lemma_insert_all_at(Map::empty(), Map::empty(), moved, index);
                lemma_insert_all_at(Map::empty(), Map::empty(), back, index);
                assert(mentions(back, index) == mentions(moved, index));
                assert(before.glyph.has_point(c, k, j));
                assert(before.glyph.point_at(c, k, j) == p);
            }
            assert(new_curve.points@ =~= old_curve.points@.map_values(
                |p: CurvePoint| p.placed(c as usize, k as usize, Map::empty()),
            ));
        }
    }
    lemma_glyph_shifted(
        after.glyph,
        before.glyph,
        Map::empty(),
        before.glyph.contours@.len(),
    );
    assert(after.glyph.entries() =~= entries);
}

/// Undoing the transformation of named points that the table has in step with the
/// glyph, each of them once, leaves everything as it was, if the inverse takes
/// each of them to where it was.
pub proof fn law_undo_transforming(
    before: GlyphState,
    transformed: GlyphState,
    after: GlyphState,
    idxs: Seq<GlyphPointIndex>,
    moved: Seq<(GlyphPointIndex, Point)>,
    back: Seq<(GlyphPointIndex, Point)>,
)
    requires
        in_step(before),
        in_glyph(before.glyph, idxs),
        distinct(chosen_in(before.glyph, contours_of(idxs), idxs)),
        indices(moved) == indices(back),
        back == chosen_in(before.glyph, contours_of(idxs), idxs),
        transformed.has_moved(before, moved),
        after.has_moved(transformed, back),
    ensures
        after.same_session(before),
        after.glyph.is_moved(before.glyph, Map::empty()),
        after.glyph.entries() == before.glyph.entries(),
        after.kd_tree@ == before.kd_tree@,
{
    let entries = before.glyph.entries();
    let home = insert_all(Map::empty(), back);
    assert forall|entry: (GlyphPointIndex, Point)|
        entries.contains(entry) && mentions(back, entry.0) implies #[trigger] home[entry.0]
        == entry.1 by {
        let i = choose|i: int| 0 <= i < back.len() && #[trigger] back[i].0 == entry.0;
        assert(back.contains(back[i]));
        law_points_to_transform(before.glyph, idxs, back[i]);
        law_points_to_transform(before.glyph, idxs, entry);
        lemma_insert_all_distinct(Map::empty(), back, back.index_of(entry));
    }
    assert(lie_at(before.glyph, home)) by {
        assert forall|c: int, k: int, j: int|
            before.glyph.has_point(c, k, j) && home.contains_key(
                before.glyph.point_at(c, k, j).index_in(c as usize, k as usize),
            ) implies (#[trigger] before.glyph.point_at(c, k, j)).position
            == home[before.glyph.point_at(c, k, j).index_in(c as usize, k as usize)] by {
            let p = before.glyph.point_at(c, k, j);
            let index = p.index_in(c as usize, k as usize);
            lemma_point_entry(before.glyph, c, k, j);
            lemma_insert_all_at(Map::empty(), Map::empty(), back, index);
            assert(entries.contains((index, p.position)));
            assert(home[(index, p.position).0] == p.position);
        }
    }
    assert forall|k: GlyphPointIndex| #[trigger] mentions(back, k) implies
        before.kd_tree@.contains_key(k) && before.kd_tree@[k] == home[k] by {
        let i = choose|i: int| 0 <= i < back.len() && #[trigger] back[i].0 == k;
        assert(back.contains(back[i]));
        law_points_to_transform(before.glyph, idxs, back[i]);
        assert(entries[entries.index_of(back[i])].0 == k);
        lemma_insert_all_at(Map::empty(), Map::empty(), entries, k);
        lemma_insert_all_from(Map::empty(), entries, k);
        let entry = (k, before.kd_tree@[k]);
        assert(home[entry.0] == entry.1);
    }
    law_undo_transform_points(before, transformed, after, moved, back);
}

/// To undo the transformation of points by a matrix is to redo the transformation
/// of the same points by its inverse. Where there is no inverse, nothing changes,
/// and the view is not drawn again.
pub proof fn law_undo_is_redo_of_inverse(
    before: GlyphState,
    after: GlyphState,
    idxs: Vec<GlyphPointIndex>,
    m: Matrix,
    inverse: Matrix,
    moved: &[(GlyphPointIndex, Point)],
)
    ensures
        can_undo(
            before.glyph,
            Change::TransformPoints { idxs, m },
            Outside::Moves(Some(moved)),
        ) == can_redo(
            before.glyph,
            Change::TransformPoints { idxs, m: inverse },
            Outside::Moves(Some(moved)),
        ),
        is_undone(
            after,
            before,
            Change::TransformPoints { idxs, m },
            Outside::Moves(Some(moved)),
        ) == is_redone(
            after,
            before,
            Change::TransformPoints { idxs, m: inverse },
            Outside::Moves(Some(moved)),
        ),
        can_undo(before.glyph, Change::TransformPoints { idxs, m }, Outside::Moves(None)),
        is_undone(
            after,
            before,
            Change::TransformPoints { idxs, m },
            Outside::Moves(None),
        ) ==> after == before,
{
}

/// Every point of a contour is among its entries.
proof fn lemma_contour_entry(contour: Contour, contour_index: usize, n: nat, k: int, j: int)
    requires
        0 <= k < n <= contour.curves@.len(),
        0 <= j < contour.curves@[k].points@.len(),
    ensures
        contour.entries_below(contour_index, n).contains(
            (
                contour.curves@[k].points@[j].index_in(contour_index, k as usize),
                contour.curves@[k].points@[j].position,
            ),
        ),
    decreases n,
{
    let p = contour.curves@[k].points@[j];
    let entry = (p.index_in(contour_index, k as usize), p.position);
    let rest = contour.entries_below(contour_index, (n - 1) as nat);
    let last = contour.curves@[n - 1].entries(contour_index, (n - 1) as usize);
    if k == n - 1 {
        assert(last[j] == entry);
        assert((rest + last)[rest.len() + j] == entry);
    } else {
        lemma_contour_entry(contour, contour_index, (n - 1) as nat, k, j);
        assert((rest + last)[rest.index_of(entry)] == entry);
    }
}

/// Every point of a glyph is among its entries.
proof fn lemma_glyph_entry(glyph: Glyph, n: nat, c: int, entry: (GlyphPointIndex, Point))
    requires
        0 <= c < n <= glyph.contours@.len(),
        glyph.contours@[c].entries(c as usize).contains(entry),
    ensures
        glyph.entries_below(n).contains(entry),
    decreases n,
{
    let rest = glyph.entries_below((n - 1) as nat);
    let last = glyph.contours@[n - 1].entries((n - 1) as usize);
    if c == n - 1 {
        assert((rest + last)[rest.len() + last.index_of(entry)] == entry);
    } else {
        lemma_glyph_entry(glyph, (n - 1) as nat, c, entry);
        assert((rest + last)[rest.index_of(entry)] == entry);
    }
}

proof fn lemma_point_entry(glyph: Glyph, c: int, k: int, j: int)
    requires
        glyph.has_point(c, k, j),
    ensures
        exists|i: int|
            0 <= i < glyph.entries().len() && #[trigger] glyph.entries()[i] == (
                glyph.point_at(c, k, j).index_in(c as usize, k as usize),
                glyph.point_at(c, k, j).position,
            ),
{
    let entry = (
        glyph.point_at(c, k, j).index_in(c as usize, k as usize),
        glyph.point_at(c, k, j).position,
    );
    lemma_contour_entry(
        glyph.contours@[c],
        c as usize,
        glyph.contours@[c].curves@.len(),
        k,
        j,
    );
    lemma_glyph_entry(glyph, glyph.contours@.len(), c, entry);
    assert(glyph.entries()[glyph.entries().index_of(entry)] == entry);
}

/// An identifier stands for one point only.
pub open spec fn one_point_each(idxs: Seq<GlyphPointIndex>) -> bool {
    forall|i: int, j: int|
        0 <= i < idxs.len() && 0 <= j < idxs.len() && (#[trigger] idxs[i]).uuid == (
        #[trigger] idxs[j]).uuid ==> idxs[i] == idxs[j]
}

/// The identifiers that count as selected are those of the selected points, and
/// they stay so whatever comes to the selection, as long as an identifier stands
/// for one point only.
pub proof fn law_marks_are_selected_uuids(
    selected: Seq<GlyphPointIndex>,
    marked: Set<u128>,
    change: Seq<GlyphPointIndex>,
    modifier: SelectionModifier,
)
    requires
        marked == uuids(selected),
        one_point_each(selected + change),
    ensures
        marks_after(selected, marked, change, modifier) == uuids(
            selection_after(selected, change, modifier),
        ),
{
    lemma_marks_stay_selected(selected, marked, change, modifier);
    let marks = marks_after(selected, marked, change, modifier);
    let after = selection_after(selected, change, modifier);
    assert forall|uuid: u128| uuids(after).contains(uuid) implies marks.contains(uuid) by {
        if modifier == SelectionModifier::Remove {
            let stays = |index: GlyphPointIndex| !change.contains(index);
            let i = choose|i: int| 0 <= i < after.len() && (#[trigger] after[i]).uuid == uuid;
            selected.lemma_filter_pred(stays, i);
            lemma_filter_from(selected, stays, i);
            let s = selected.index_of(after[i]);
            assert(selected[s].uuid == uuid);
            assert(has_uuid(selected, uuid));
            if has_uuid(change, uuid) {
                let c = choose|c: int| 0 <= c < change.len() && (#[trigger] change[c]).uuid == uuid;
                let both = selected + change;
                assert(both[s] == selected[s]);
                assert(both[selected.len() + c] == change[c]);
                assert(change[c] == after[i]);
                assert(change.contains(after[i]));
            }
        }
    }
    assert(marks =~= uuids(after));
}

/// What a filter keeps was there before.
proof fn lemma_filter_from<A>(s: Seq<A>, pred: spec_fn(A) -> bool, i: int)
    requires
        0 <= i < s.filter(pred).len(),
    ensures
        s.contains(s.filter(pred)[i]),
    decreases s.len(),
{
    reveal(Seq::filter);
    if s.len() > 0 {
        let rest = s.drop_last();
        if i < rest.filter(pred).len() {
            lemma_filter_from(rest, pred, i);
            let x = rest.filter(pred)[i];
            assert(s[rest.index_of(x)] == x);
        } else {
            assert(s[s.len() - 1] == s.filter(pred)[i]);
        }
    }
}

/// Taking points out of a selection undoes their addition, where none of them
/// was selected before and their identifiers are their own.
pub proof fn law_remove_undoes_add(
    selected: Seq<GlyphPointIndex>,
    marked: Set<u128>,
    change: Seq<GlyphPointIndex>,
)
    requires
        marked == uuids(selected),
        uuids(selected).disjoint(uuids(change)),
    ensures
        ({
            let more = selection_after(selected, change, SelectionModifier::Add);
            let marks = marks_after(selected, marked, change, SelectionModifier::Add);
            &&& selection_after(more, change, SelectionModifier::Remove) == selected
            &&& marks_after(more, marks, change, SelectionModifier::Remove) == marked
        }),
{
    let stays = |index: GlyphPointIndex| !change.contains(index);
    Seq::filter_distributes_over_add(selected, change, stays);
    assert forall|i: int| 0 <= i < selected.len() implies stays(#[trigger] selected[i]) by {
        if change.contains(selected[i]) {
            let uuid = selected[i].uuid;
            let c = change.index_of(selected[i]);
            assert(change[c].uuid == uuid);
            assert(uuids(selected).contains(uuid) && uuids(change).contains(uuid));
        }
    }
    lemma_filter_all(selected, stays);
    assert forall|i: int| 0 <= i < change.len() implies !stays(#[trigger] change[i]) by {
        assert(change.contains(change[i]));
    }
    lemma_filter_none(change, stays);
    assert(selected + Seq::<GlyphPointIndex>::empty() =~= selected);
    let marks = marks_after(selected, marked, change, SelectionModifier::Add);
    assert forall|uuid: u128|
        marks.difference(uuids(change)).contains(uuid) == marked.contains(uuid) by {
        let both = selected + change;
        if has_uuid(both, uuid) {
            let i = choose|i: int| 0 <= i < both.len() && (#[trigger] both[i]).uuid == uuid;
            if i < selected.len() {
                assert(selected[i].uuid == uuid);
            } else {
                assert(change[i - selected.len()].uuid == uuid);
            }
        }
        if marked.contains(uuid) {
            assert(uuids(selected).contains(uuid));
            assert(!uuids(change).contains(uuid));
        }
    }
    assert(marks.difference(uuids(change)) =~= marked);
}

proof fn lemma_filter_all<A>(s: Seq<A>, pred: spec_fn(A) -> bool)
    requires
        forall|i: int| 0 <= i < s.len() ==> pred(#[trigger] s[i]),
    ensures
        s.filter(pred) == s,
    decreases s.len(),
{
    reveal(Seq::filter);
    if s.len() > 0 {
        lemma_filter_all(s.drop_last(), pred);
        assert(s.drop_last().push(s.last()) =~= s);
    }
}

proof fn lemma_filter_none<A>(s: Seq<A>, pred: spec_fn(A) -> bool)
    requires
        forall|i: int| 0 <= i < s.len() ==> !pred(#[trigger] s[i]),
    ensures
        s.filter(pred) == Seq::<A>::empty(),
    decreases s.len(),
{
    reveal(Seq::filter);
    if s.len() > 0 {
        lemma_filter_none(s.drop_last(), pred);
    }
}

/// The bytes of an index tell it from every other.
proof fn lemma_bytes_injective(a: GlyphPointIndex, b: GlyphPointIndex)
    requires
        a.bytes() == b.bytes(),
    ensures
        a == b,
{
    vstd::bytes::lemma_auto_spec_u64_to_from_le_bytes();
    vstd::bytes::lemma_auto_spec_u128_to_from_le_bytes();
    let contour_a = vstd::bytes::spec_u64_to_le_bytes(a.contour_index as u64);
    let contour_b = vstd::bytes::spec_u64_to_le_bytes(b.contour_index as u64);
    let curve_a = vstd::bytes::spec_u64_to_le_bytes(a.curve_index as u64);
    let curve_b = vstd::bytes::spec_u64_to_le_bytes(b.curve_index as u64);
    let uuid_a = vstd::bytes::spec_u128_to_le_bytes(a.uuid);
    let uuid_b = vstd::bytes::spec_u128_to_le_bytes(b.uuid);
    assert(contour_a =~= a.bytes().subrange(0, 8));
    assert(contour_b =~= b.bytes().subrange(0, 8));
    assert(curve_a =~= a.bytes().subrange(8, 16));
    assert(curve_b =~= b.bytes().subrange(8, 16));
    assert(spec_uuid_bytes(a.uuid) =~= a.bytes().subrange(16, 32));
    assert(spec_uuid_bytes(b.uuid) =~= b.bytes().subrange(16, 32));
    assert(uuid_a =~= spec_uuid_bytes(a.uuid).reverse());
    assert(uuid_b =~= spec_uuid_bytes(b.uuid).reverse());
    assert(a.contour_index as u64 == b.contour_index as u64);
    assert(a.curve_index as u64 == b.curve_index as u64);
}

proof fn lemma_points_id_len(idxs: Seq<GlyphPointIndex>)
    ensures
        points_id(idxs).len() == 32 * idxs.len(),
    decreases idxs.len(),
{
    if idxs.len() > 0 {
        lemma_points_id_len(idxs.drop_last());
        vstd::bytes::lemma_auto_spec_u64_to_from_le_bytes();
        vstd::bytes::lemma_auto_spec_u128_to_from_le_bytes();
    }
}

/// Transformations of points have the same stamp only if they are about the same
/// points in the same order.
pub proof fn law_points_stamp(a: Seq<GlyphPointIndex>, b: Seq<GlyphPointIndex>)
    ensures
        points_id(a) == points_id(b) <==> a == b,
    decreases a.len(),
{
    lemma_points_id_len(a);
    lemma_points_id_len(b);
    if points_id(a) == points_id(b) {
        assert(a.len() == b.len());
        if a.len() > 0 {
            let id = points_id(a);
            let rest = 32 * (a.len() - 1);
            lemma_points_id_len(a.drop_last());
            lemma_points_id_len(b.drop_last());
            assert(points_id(a.drop_last()) =~= id.subrange(0, rest));
            assert(points_id(b.drop_last()) =~= id.subrange(0, rest));
            assert(a.last().bytes() =~= id.subrange(rest, id.len() as int));
            assert(b.last().bytes() =~= id.subrange(rest, id.len() as int));
            law_points_stamp(a.drop_last(), b.drop_last());
            lemma_bytes_injective(a.last(), b.last());
            assert(a =~= a.drop_last().push(a.last()));
            assert(b =~= b.drop_last().push(b.last()));
        } else {
            assert(a =~= b);
        }
    }
}

/// Changes to items of a list have the same stamp where the positions of the
/// items agree in their least significant byte, and only there.
pub proof fn law_item_stamp(a: usize, b: usize)
    ensures
        item_id(a) == item_id(b) <==> a % 256 == b % 256,
{
    assert(item_id(a)[0] == (a % 256) as u8);
    assert(item_id(b)[0] == (b % 256) as u8);
}

/// A transformation takes hold of the points of the glyph that it names, and of
/// no others.
pub proof fn law_points_to_transform(
    glyph: Glyph,
    idxs: Seq<GlyphPointIndex>,
    entry: (GlyphPointIndex, Point),
)
    requires
        in_glyph(glyph, idxs),
    ensures
        chosen_in(glyph, contours_of(idxs), idxs).contains(entry) <==> idxs.contains(entry.0)
            && glyph.entries().contains(entry),
{
    let contours = contours_of(idxs);
    lemma_contours_of(idxs);
    assert forall|i: int| 0 <= i < contours.len() implies (#[trigger] contours[i])
        < glyph.contours@.len() by {
        assert(contours.contains(contours[i]));
    }
    lemma_chosen_in(glyph, contours, idxs, entry);
    if chosen_in(glyph, contours, idxs).contains(entry) {
        let i = choose|i: int|
            0 <= i < contours.len() && #[trigger] glyph.contours@[contours[i] as int].chosen(
                contours[i],
                idxs,
            ).contains(entry);
        lemma_chosen(glyph.contours@[contours[i] as int], contours[i], idxs, entry);
        lemma_glyph_entry(glyph, glyph.contours@.len(), contours[i] as int, entry);
    }
    if idxs.contains(entry.0) && glyph.entries().contains(entry) {
        assert(glyph.contours.len() == glyph.contours@.len());
        lemma_entry_contour(glyph, glyph.contours@.len(), entry);
        let c = entry.0.contour_index;
        assert(idxs[idxs.index_of(entry.0)].contour_index == c);
        assert(contours.contains(c));
        let i = contours.index_of(c);
        lemma_chosen(glyph.contours@[c as int], c, idxs, entry);
        assert(glyph.contours@[contours[i] as int].chosen(contours[i], idxs).contains(entry));
    }
}

/// What is chosen from a contour: its entries that are named.
proof fn lemma_chosen(
    contour: Contour,
    contour_index: usize,
    idxs: Seq<GlyphPointIndex>,
    entry: (GlyphPointIndex, Point),
)
    ensures
        contour.chosen(contour_index, idxs).contains(entry) <==> idxs.contains(entry.0)
            && contour.entries(contour_index).contains(entry),
{
    let named = |e: (GlyphPointIndex, Point)| idxs.contains(e.0);
    let entries = contour.entries(contour_index);
    let chosen = entries.filter(named);
    if chosen.contains(entry) {
        let i = chosen.index_of(entry);
        entries.lemma_filter_pred(named, i);
        lemma_filter_from(entries, named, i);
    }
    if idxs.contains(entry.0) && entries.contains(entry) {
        entries.lemma_filter_contains(named, entries.index_of(entry));
    }
}

/// What is chosen from contours is chosen from one of them.
proof fn lemma_chosen_in(
    glyph: Glyph,
    contours: Seq<usize>,
    idxs: Seq<GlyphPointIndex>,
    entry: (GlyphPointIndex, Point),
)
    ensures
        chosen_in(glyph, contours, idxs).contains(entry) <==> exists|i: int|
            0 <= i < contours.len() && #[trigger] glyph.contours@[contours[i] as int].chosen(
                contours[i],
                idxs,
            ).contains(entry),
    decreases contours.len(),
{
    if contours.len() > 0 {
        let rest = contours.drop_last();
        let first = chosen_in(glyph, rest, idxs);
        let last = glyph.contours@[contours.last() as int].chosen(contours.last(), idxs);
        let all = first + last;
        lemma_chosen_in(glyph, rest, idxs, entry);
        if all.contains(entry) {
            let at = all.index_of(entry);
            if at < first.len() {
                assert(first[at] == entry);
                let i = choose|i: int|
                    0 <= i < rest.len() && #[trigger] glyph.contours@[rest[i] as int].chosen(
                        rest[i],
                        idxs,
                    ).contains(entry);
                assert(glyph.contours@[contours[i] as int].chosen(contours[i], idxs).contains(
                    entry,
                ));
            } else {
                assert(last[at - first.len()] == entry);
                let i = contours.len() - 1;
                assert(glyph.contours@[contours[i] as int].chosen(contours[i], idxs).contains(
                    entry,
                ));
            }
        }
        if exists|i: int|
            0 <= i < contours.len() && #[trigger] glyph.contours@[contours[i] as int].chosen(
                contours[i],
                idxs,
            ).contains(entry) {
            let i = choose|i: int|
                0 <= i < contours.len() && #[trigger] glyph.contours@[contours[i] as int].chosen(
                    contours[i],
                    idxs,
                ).contains(entry);
            if i < rest.len() {
                assert(glyph.contours@[rest[i] as int].chosen(rest[i], idxs).contains(entry));
                assert(all[first.index_of(entry)] == entry);
            } else {
                assert(all[first.len() + last.index_of(entry)] == entry);
            }
        }
    }
}

/// An entry of a contour carries the contour's index.
proof fn lemma_entry_index(
    contour: Contour,
    contour_index: usize,
    n: nat,
    entry: (GlyphPointIndex, Point),
)
    requires
        n <= contour.curves@.len(),
        contour.entries_below(contour_index, n).contains(entry),
    ensures
        entry.0.contour_index == contour_index,
    decreases n,
{
    if n > 0 {
        let rest = contour.entries_below(contour_index, (n - 1) as nat);
        let last = contour.curves@[n - 1].entries(contour_index, (n - 1) as usize);
        let at = (rest + last).index_of(entry);
        if at < rest.len() {
            assert(rest[at] == entry);
            lemma_entry_index(contour, contour_index, (n - 1) as nat, entry);
        } else {
            assert(last[at - rest.len()] == entry);
        }
    }
}

/// An entry of a glyph is an entry of the contour that it names.
proof fn lemma_entry_contour(glyph: Glyph, n: nat, entry: (GlyphPointIndex, Point))
    requires
        n <= glyph.contours@.len(),
        n <= usize::MAX,
        glyph.entries_below(n).contains(entry),
    ensures
        entry.0.contour_index < n,
        glyph.contours@[entry.0.contour_index as int].entries(entry.0.contour_index).contains(
            entry,
        ),
    decreases n,
{
    if n > 0 {
        let rest = glyph.entries_below((n - 1) as nat);
        let c = (n - 1) as usize;
        let last = glyph.contours@[n - 1].entries(c);
        let at = (rest + last).index_of(entry);
        if at < rest.len() {
            assert(rest[at] == entry);
            lemma_entry_contour(glyph, (n - 1) as nat, entry);
        } else {
            assert(last[at - rest.len()] == entry);
            lemma_entry_index(
                glyph.contours@[n - 1],
                c,
                glyph.contours@[n - 1].curves@.len(),
                entry,
            );
        }
    }
}

/// A transformation takes hold of a point once, however often it is named, where
/// no two points of the glyph share an index.
pub proof fn law_points_transformed_once(glyph: Glyph, idxs: Seq<GlyphPointIndex>)
    requires
        in_glyph(glyph, idxs),
        distinct(glyph.entries()),
    ensures
        distinct(chosen_in(glyph, contours_of(idxs), idxs)),
{
    let contours = contours_of(idxs);
    lemma_contours_of(idxs);
    assert forall|i: int| 0 <= i < contours.len() implies (#[trigger] contours[i])
        < glyph.contours@.len() by {
        assert(contours.contains(contours[i]));
    }
    lemma_chosen_in_distinct(glyph, contours, idxs);
}

proof fn lemma_chosen_in_distinct(glyph: Glyph, contours: Seq<usize>, idxs: Seq<GlyphPointIndex>)
    requires
        distinct(glyph.entries()),
        contours.no_duplicates(),
        forall|i: int|
            0 <= i < contours.len() ==> (#[trigger] contours[i]) < glyph.contours@.len(),
    ensures
        distinct(chosen_in(glyph, contours, idxs)),
    decreases contours.len(),
{
    if contours.len() > 0 {
        let rest = contours.drop_last();
        let c = contours.last();
        let first = chosen_in(glyph, rest, idxs);
        let entries = glyph.contours@[c as int].entries(c);
        let last = glyph.contours@[c as int].chosen(c, idxs);
        lemma_chosen_in_distinct(glyph, rest, idxs);
        lemma_contour_distinct(glyph, glyph.contours@.len(), c as int);
        lemma_filter_distinct(entries, |e: (GlyphPointIndex, Point)| idxs.contains(e.0));
        assert forall|a: int, b: int|
            0 <= a < first.len() && 0 <= b < last.len() implies (#[trigger] first[a]).0 != (
        #[trigger] last[b]).0 by {
            lemma_chosen_in(glyph, rest, idxs, first[a]);
            let i = choose|i: int|
                0 <= i < rest.len() && #[trigger] glyph.contours@[rest[i] as int].chosen(
                    rest[i],
                    idxs,
                ).contains(first[a]);
            let other = glyph.contours@[rest[i] as int];
            lemma_chosen(other, rest[i], idxs, first[a]);
            lemma_entry_index(other, rest[i], other.curves@.len(), first[a]);
            lemma_chosen(glyph.contours@[c as int], c, idxs, last[b]);
            lemma_entry_index(
                glyph.contours@[c as int],
                c,
                glyph.contours@[c as int].curves@.len(),
                last[b],
            );
            assert(contours[i] != contours[contours.len() - 1]);
        }
        let all = first + last;
        assert forall|a: int, b: int|
            0 <= a < all.len() && 0 <= b < all.len() && a != b implies (#[trigger] all[a]).0 != (
        #[trigger] all[b]).0 by {
            let n = first.len() as int;
            if a < n && b < n {
                assert(first[a].0 != first[b].0);
            } else if a >= n && b >= n {
                assert(last[a - n].0 != last[b - n].0);
            } else if a < n {
                assert(first[a].0 != last[b - n].0);
            } else {
                assert(first[b].0 != last[a - n].0);
            }
        }
    }
}

/// Where no two points of a glyph share an index, none of a contour do.
proof fn lemma_contour_distinct(glyph: Glyph, n: nat, c: int)
    requires
        0 <= c < n <= glyph.contours@.len(),
        distinct(glyph.entries_below(n)),
    ensures
        distinct(glyph.contours@[c].entries(c as usize)),
    decreases n,
{
    let rest = glyph.entries_below((n - 1) as nat);
    let last = glyph.contours@[n - 1].entries((n - 1) as usize);
    let all = rest + last;
    if c == n - 1 {
        assert forall|a: int, b: int|
            0 <= a < last.len() && 0 <= b < last.len() && a != b implies (#[trigger] last[a]).0 != (
        #[trigger] last[b]).0 by {
            assert(all[rest.len() + a].0 != all[rest.len() + b].0);
        }
    } else {
        assert forall|a: int, b: int|
            0 <= a < rest.len() && 0 <= b < rest.len() && a != b implies (#[trigger] rest[a]).0 != (
        #[trigger] rest[b]).0 by {
            assert(all[a].0 != all[b].0);
        }
        lemma_contour_distinct(glyph, (n - 1) as nat, c);
    }
}

/// A filter keeps entries distinct.
proof fn lemma_filter_distinct(
    entries: Seq<(GlyphPointIndex, Point)>,
    pred: spec_fn((GlyphPointIndex, Point)) -> bool,
)
    requires
        distinct(entries),
    ensures
        distinct(entries.filter(pred)),
    decreases entries.len(),
{
    reveal(Seq::filter);
    if entries.len() > 0 {
        let rest = entries.drop_last();
        assert(distinct(rest)) by {
            assert forall|a: int, b: int|
                0 <= a < rest.len() && 0 <= b < rest.len() && a != b implies (
            #[trigger] rest[a]).0 != (#[trigger] rest[b]).0 by {
                assert(entries[a].0 != entries[b].0);
            }
        }
        lemma_filter_distinct(rest, pred);
        let kept = rest.filter(pred);
        assert forall|a: int| 0 <= a < kept.len() implies (#[trigger] kept[a]).0
            != entries.last().0 by {
            lemma_filter_from(rest, pred, a);
            let i = rest.index_of(kept[a]);
            assert(entries[i].0 != entries[entries.len() - 1].0);
        }
    }
}

} // verus!
