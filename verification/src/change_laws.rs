//! What each change does to a session when it is done, undone and redone: to the
//! points of the glyph, to the table, and to the list of guidelines.

use vstd::prelude::*;

use crate::action::Change;
use crate::glyphs::{Contour, GlyphPointIndex, Matrix, Point, Real};
use crate::guidelines::{lemma_objects_len, Guideline, Guidelines, Placement};
use crate::history::{can_redo, can_undo, is_redone, is_undone, Outside};
use crate::point_laws::{law_contour_entries, law_contour_entry, law_taken_out, law_written};
use crate::point_laws::points_before;
use crate::range_query::insert_all;
use crate::state::{lemma_contours_of, GlyphState};

verus! {

/// Moving points leaves all of a session as it is but where points lie: the tools,
/// the selection, the guidelines, which contours and curves there are and how many
/// points these have.
pub proof fn law_moving_keeps_the_rest(
    before: GlyphState,
    after: GlyphState,
    moved: Seq<(GlyphPointIndex, Point)>,
    c: int,
    k: int,
)
    requires
        after.has_moved(before, moved),
    ensures
        after.reference == before.reference,
        after.tools == before.tools,
        after.active_tool == before.active_tool,
        after.panning_tool == before.panning_tool,
        after.selection == before.selection,
        after.glyph.name_markup == before.glyph.name_markup,
        after.glyph.width == before.glyph.width,
        after.glyph.guidelines == before.glyph.guidelines,
        after.glyph.contours@.len() == before.glyph.contours@.len(),
        0 <= c < before.glyph.contours@.len() ==> after.glyph.contours@[c].id
            == before.glyph.contours@[c].id && after.glyph.contours@[c].curves@.len()
            == before.glyph.contours@[c].curves@.len(),
        0 <= c < before.glyph.contours@.len() && 0 <= k < before.glyph.contours@[c].curves@.len()
            ==> after.glyph.contours@[c].curves@[k].points@.len()
            == before.glyph.contours@[c].curves@[k].points@.len(),
{
    if 0 <= c < before.glyph.contours@.len() {
        let places = insert_all(Map::empty(), moved);
        assert(after.glyph.contours@[c].is_moved(before.glyph.contours@[c], c as usize, places));
        if 0 <= k < before.glyph.contours@[c].curves@.len() {
            assert(after.glyph.contours@[c].curves@[k].is_moved(
                before.glyph.contours@[c].curves@[k],
                c as usize,
                k as usize,
                places,
            ));
        }
    }
}

/// A point of the glyph that is moved lies where the last entry for it says. One
/// that no entry is for stays as it is.
pub proof fn law_moving_a_point(
    before: GlyphState,
    after: GlyphState,
    moved: Seq<(GlyphPointIndex, Point)>,
    c: int,
    k: int,
    j: int,
)
    requires
        after.has_moved(before, moved),
        0 <= c < before.glyph.contours@.len(),
        0 <= k < before.glyph.contours@[c].curves@.len(),
        0 <= j < before.glyph.contours@[c].curves@[k].points@.len(),
    ensures
        after.glyph.contours@[c].curves@[k].points@[j].uuid
            == before.glyph.contours@[c].curves@[k].points@[j].uuid,
        forall|i: int|
            #![trigger moved[i]]
            0 <= i < moved.len() && moved[i].0.contour_index == c && moved[i].0.curve_index == k
                && moved[i].0.uuid == before.glyph.contours@[c].curves@[k].points@[j].uuid && (
            forall|later: int|
                i < later < moved.len() ==> (#[trigger] moved[later]).0 != moved[i].0)
                ==> after.glyph.contours@[c].curves@[k].points@[j].position == moved[i].1,
        (forall|i: int|
            0 <= i < moved.len() ==> !((#[trigger] moved[i]).0.contour_index == c
                && moved[i].0.curve_index == k && moved[i].0.uuid
                == before.glyph.contours@[c].curves@[k].points@[j].uuid))
            ==> after.glyph.contours@[c].curves@[k].points@[j]
            == before.glyph.contours@[c].curves@[k].points@[j],
{
    let places = insert_all(Map::empty(), moved);
    let old_curve = before.glyph.contours@[c].curves@[k];
    let new_curve = after.glyph.contours@[c].curves@[k];
    assert(before.glyph.contours.len() == before.glyph.contours@.len());
    assert(before.glyph.contours@[c].curves.len() == before.glyph.contours@[c].curves@.len());
    assert(after.glyph.contours@[c].is_moved(before.glyph.contours@[c], c as usize, places));
    assert(new_curve.is_moved(old_curve, c as usize, k as usize, places));
    law_written(Map::empty(), moved);
    let index = GlyphPointIndex {
        contour_index: c as usize,
        curve_index: k as usize,
        uuid: old_curve.points@[j].uuid,
    };
    assert(new_curve.points@[j] == old_curve.points@[j].placed(c as usize, k as usize, places));
    assert forall|i: int|
        #![trigger moved[i]]
        0 <= i < moved.len() && moved[i].0.contour_index == c && moved[i].0.curve_index == k
            && moved[i].0.uuid == old_curve.points@[j].uuid && (forall|later: int|
            i < later < moved.len() ==> (#[trigger] moved[later]).0 != moved[i].0) implies
        new_curve.points@[j].position == moved[i].1 by {
        assert(moved[i].0 == index);
        assert(places.dom().contains(index) && places[index] == moved[i].1);
    }
    if forall|i: int|
        0 <= i < moved.len() ==> !((#[trigger] moved[i]).0.contour_index == c
            && moved[i].0.curve_index == k && moved[i].0.uuid == old_curve.points@[j].uuid) {
        assert forall|i: int| 0 <= i < moved.len() implies (#[trigger] moved[i]).0 != index by {}
        assert(!places.dom().contains(index));
    }
}

/// A point that is moved is in the table where the last entry for it says. The
/// table has every index that no entry is for as it had it.
pub proof fn law_moving_in_the_table(
    before: GlyphState,
    after: GlyphState,
    moved: Seq<(GlyphPointIndex, Point)>,
)
    requires
        after.has_moved(before, moved),
    ensures
        forall|i: int|
            #![trigger moved[i]]
            0 <= i < moved.len() && (forall|later: int|
                i < later < moved.len() ==> (#[trigger] moved[later]).0 != moved[i].0)
                ==> after.kd_tree@.dom().contains(moved[i].0) && after.kd_tree@[moved[i].0]
                == moved[i].1,
        forall|index: GlyphPointIndex|
            (forall|i: int| 0 <= i < moved.len() ==> (#[trigger] moved[i]).0 != index) ==> (
            #[trigger] after.kd_tree@.dom().contains(index)) == before.kd_tree@.dom().contains(
                index,
            ),
        forall|index: GlyphPointIndex|
            (forall|i: int| 0 <= i < moved.len() ==> (#[trigger] moved[i]).0 != index) ==> (
            #[trigger] after.kd_tree@[index]) == before.kd_tree@[index],
{
    law_written(before.kd_tree@, moved);
}

/// To redo or to undo a transformation of points is to move them, in the glyph and
/// in the table: every point that `moved` has an entry for lies where the last entry
/// for it says, in both. All other points stay, in both.
pub proof fn law_transform_points(
    before: GlyphState,
    after: GlyphState,
    idxs: Vec<GlyphPointIndex>,
    m: Matrix,
    moved: &[(GlyphPointIndex, Point)],
    c: int,
    k: int,
    j: int,
)
    requires
        is_redone(
            after,
            before,
            Change::TransformPoints { idxs, m },
            Outside::Moves(Some(moved)),
        ) || is_undone(
            after,
            before,
            Change::TransformPoints { idxs, m },
            Outside::Moves(Some(moved)),
        ),
    ensures
        forall|i: int|
            #![trigger moved@[i]]
            0 <= i < moved@.len() && (forall|later: int|
                i < later < moved@.len() ==> (#[trigger] moved@[later]).0 != moved@[i].0)
                ==> after.kd_tree@.dom().contains(moved@[i].0) && after.kd_tree@[moved@[i].0]
                == moved@[i].1,
        forall|index: GlyphPointIndex|
            (forall|i: int| 0 <= i < moved@.len() ==> (#[trigger] moved@[i]).0 != index) ==> (
            #[trigger] after.kd_tree@.dom().contains(index)) == before.kd_tree@.dom().contains(
                index,
            ),
        forall|index: GlyphPointIndex|
            (forall|i: int| 0 <= i < moved@.len() ==> (#[trigger] moved@[i]).0 != index) ==> (
            #[trigger] after.kd_tree@[index]) == before.kd_tree@[index],
        0 <= c < before.glyph.contours@.len() && 0 <= k < before.glyph.contours@[c].curves@.len()
            && 0 <= j < before.glyph.contours@[c].curves@[k].points@.len() ==> {
            &&& after.glyph.contours@[c].curves@[k].points@[j].uuid
                == before.glyph.contours@[c].curves@[k].points@[j].uuid
            &&& forall|i: int|
                #![trigger moved@[i]]
                0 <= i < moved@.len() && moved@[i].0.contour_index == c && moved@[i].0.curve_index
                    == k && moved@[i].0.uuid
                    == before.glyph.contours@[c].curves@[k].points@[j].uuid && (forall|later: int|
                    i < later < moved@.len() ==> (#[trigger] moved@[later]).0 != moved@[i].0)
                    ==> after.glyph.contours@[c].curves@[k].points@[j].position == moved@[i].1
            &&& (forall|i: int|
                0 <= i < moved@.len() ==> !((#[trigger] moved@[i]).0.contour_index == c
                    && moved@[i].0.curve_index == k && moved@[i].0.uuid
                    == before.glyph.contours@[c].curves@[k].points@[j].uuid))
                ==> after.glyph.contours@[c].curves@[k].points@[j]
                == before.glyph.contours@[c].curves@[k].points@[j]
        },
        after.glyph.contours@.len() == before.glyph.contours@.len(),
        after.glyph.guidelines == before.glyph.guidelines,
        after.glyph.name_markup == before.glyph.name_markup,
        after.glyph.width == before.glyph.width,
        after.selection == before.selection,
        after.tools == before.tools,
        after.active_tool == before.active_tool,
        after.panning_tool == before.panning_tool,
        after.reference == before.reference,
{
    law_moving_in_the_table(before, after, moved@);
    law_moving_keeps_the_rest(before, after, moved@, c, k);
    if 0 <= c < before.glyph.contours@.len() && 0 <= k < before.glyph.contours@[c].curves@.len()
        && 0 <= j < before.glyph.contours@[c].curves@[k].points@.len() {
        law_moving_a_point(before, after, moved@, c, k, j);
    }
}

/// Without places that the inverse takes points to, or a guideline to, or without the
/// contour, nothing is undone.
pub proof fn law_nothing_to_undo(before: GlyphState, after: GlyphState, change: Change)
    ensures
        change is TransformPoints && is_undone(after, before, change, Outside::Moves(None))
            ==> after == before,
        change is TransformGuideline && is_undone(after, before, change, Outside::Placement(None))
            ==> after == before,
        change is AddContour && (is_undone(after, before, change, Outside::Contour(None))
            || is_redone(after, before, change, Outside::Contour(None))) ==> after == before,
{
}

/// A change of guidelines leaves all else of a session as it is.
pub proof fn law_guidelines_keep_the_rest(
    before: GlyphState,
    after: GlyphState,
    change: Change,
    outside: Outside,
)
    requires
        change is NewGuideline || change is DeleteGuideline || change is TransformGuideline,
        is_redone(after, before, change, outside) || is_undone(after, before, change, outside),
    ensures
        after.reference == before.reference,
        after.tools == before.tools,
        after.active_tool == before.active_tool,
        after.panning_tool == before.panning_tool,
        after.selection == before.selection,
        after.kd_tree == before.kd_tree,
        after.glyph.name_markup == before.glyph.name_markup,
        after.glyph.width == before.glyph.width,
        after.glyph.contours == before.glyph.contours,
{
}

/// The same, of the methods that make the changes and of the making of a guideline.
pub proof fn law_guideline_methods_keep_the_rest(
    before: GlyphState,
    after: GlyphState,
    objects: Seq<Guideline>,
    numbers: Seq<usize>,
)
    requires
        after.has_guidelines(before, objects, numbers),
    ensures
        after.reference == before.reference,
        after.tools == before.tools,
        after.active_tool == before.active_tool,
        after.panning_tool == before.panning_tool,
        after.selection == before.selection,
        after.kd_tree == before.kd_tree,
        after.glyph.name_markup == before.glyph.name_markup,
        after.glyph.width == before.glyph.width,
        after.glyph.contours == before.glyph.contours,
        after.glyph.guidelines@.len() == numbers.len(),
        forall|i: int|
            0 <= i < numbers.len() ==> (#[trigger] after.glyph.guidelines@[i])
                == objects[numbers[i] as int],
{
}

/// What is on the list of guidelines are the objects that the numbers on it stand
/// for, in their order.
pub proof fn law_list_of_guidelines(guidelines: Guidelines)
    ensures
        guidelines@.len() == guidelines.numbers().len(),
        forall|i: int|
            0 <= i < guidelines@.len() ==> (#[trigger] guidelines@[i])
                == guidelines.objects()[guidelines.numbers()[i] as int],
{
}

/// To do a deletion is to take the guideline at the position off the list: those
/// before it stay where they are, and those behind it move up by one.
pub proof fn law_redo_deletion(
    before: GlyphState,
    after: GlyphState,
    idx: usize,
    guideline: Guideline,
)
    requires
        idx < before.glyph.guidelines@.len(),
        is_redone(
            after,
            before,
            Change::DeleteGuideline { idx, guideline },
            Outside::Nothing,
        ),
    ensures
        after.glyph.guidelines@.len() == before.glyph.guidelines@.len() - 1,
        forall|i: int|
            0 <= i < idx ==> (#[trigger] after.glyph.guidelines@[i])
                == before.glyph.guidelines@[i],
        forall|i: int|
            idx <= i < before.glyph.guidelines@.len() - 1
                ==> (#[trigger] after.glyph.guidelines@[i])
                == before.glyph.guidelines@[i + 1],
        after.glyph.guidelines.objects() == before.glyph.guidelines.objects(),
{
}

/// To undo a deletion is to put the guideline that was kept behind the others, which
/// stay where they are. It is none of those that were made before.
pub proof fn law_undo_deletion(
    before: GlyphState,
    after: GlyphState,
    idx: usize,
    guideline: Guideline,
)
    requires
        before.wf(),
        is_undone(
            after,
            before,
            Change::DeleteGuideline { idx, guideline },
            Outside::Nothing,
        ),
    ensures
        after.glyph.guidelines@.len() == before.glyph.guidelines@.len() + 1,
        forall|i: int|
            0 <= i < before.glyph.guidelines@.len() ==> (#[trigger] after.glyph.guidelines@[i])
                == before.glyph.guidelines@[i],
        after.glyph.guidelines@.last() == guideline,
        after.glyph.guidelines.numbers().last() == before.glyph.guidelines.objects().len(),
{
    lemma_objects_len(before.glyph.guidelines);
    assert forall|i: int| 0 <= i < before.glyph.guidelines@.len() implies (
    #[trigger] after.glyph.guidelines@[i]) == before.glyph.guidelines@[i] by {
        assert(before.glyph.guidelines.numbers()[i] < before.glyph.guidelines.objects().len());
    }
}

/// To do a new guideline is to put the one that goes by the number behind the others,
/// as it is now. The others stay where they are.
pub proof fn law_redo_addition(before: GlyphState, after: GlyphState, number: usize)
    requires
        is_redone(after, before, Change::NewGuideline { number }, Outside::Nothing),
    ensures
        after.glyph.guidelines@.len() == before.glyph.guidelines@.len() + 1,
        forall|i: int|
            0 <= i < before.glyph.guidelines@.len() ==> (#[trigger] after.glyph.guidelines@[i])
                == before.glyph.guidelines@[i],
        after.glyph.guidelines@.last() == before.glyph.guidelines.objects()[number as int],
        after.glyph.guidelines.numbers().last() == number,
        after.glyph.guidelines.objects() == before.glyph.guidelines.objects(),
{
}

/// To undo a new guideline is to take the last one off the list, if there is one.
pub proof fn law_undo_addition(before: GlyphState, after: GlyphState, number: usize)
    requires
        is_undone(after, before, Change::NewGuideline { number }, Outside::Nothing),
    ensures
        before.glyph.guidelines@.len() == 0 ==> after.glyph.guidelines@.len() == 0,
        before.glyph.guidelines@.len() > 0 ==> after.glyph.guidelines@.len()
            == before.glyph.guidelines@.len() - 1,
        forall|i: int|
            0 <= i < after.glyph.guidelines@.len() ==> (#[trigger] after.glyph.guidelines@[i])
                == before.glyph.guidelines@[i],
        after.glyph.guidelines.objects() == before.glyph.guidelines.objects(),
{
}

/// To redo or to undo the transformation of a guideline is to put the one at the
/// position where it is said to go. It stays the same guideline, at the same
/// position. Any other guideline stays as it is.
pub proof fn law_transform_a_guideline(
    before: GlyphState,
    after: GlyphState,
    idx: usize,
    m: Matrix,
    dangle: Real,
    placement: Placement,
)
    requires
        before.wf(),
        idx < before.glyph.guidelines@.len(),
        is_redone(
            after,
            before,
            Change::TransformGuideline { idx, m, dangle },
            Outside::Placement(Some(placement)),
        ) || is_undone(
            after,
            before,
            Change::TransformGuideline { idx, m, dangle },
            Outside::Placement(Some(placement)),
        ),
    ensures
        after.glyph.guidelines@.len() == before.glyph.guidelines@.len(),
        after.glyph.guidelines@[idx as int].identifier
            == before.glyph.guidelines@[idx as int].identifier,
        after.glyph.guidelines@[idx as int].x == placement.x,
        after.glyph.guidelines@[idx as int].y == placement.y,
        after.glyph.guidelines@[idx as int].angle == placement.angle,
        after.glyph.guidelines.numbers() == before.glyph.guidelines.numbers(),
        after.glyph.guidelines.objects().len() == before.glyph.guidelines.objects().len(),
        forall|number: int|
            0 <= number < before.glyph.guidelines.objects().len() && number
                != before.glyph.guidelines.numbers()[idx as int] ==> (
            #[trigger] after.glyph.guidelines.objects()[number])
                == before.glyph.guidelines.objects()[number],
        forall|i: int|
            0 <= i < before.glyph.guidelines@.len() && before.glyph.guidelines.numbers()[i]
                != before.glyph.guidelines.numbers()[idx as int] ==> (
            #[trigger] after.glyph.guidelines@[i]) == before.glyph.guidelines@[i],
{
    assert(before.glyph.guidelines.numbers()[idx as int]
        < before.glyph.guidelines.objects().len());
}

/// No entry of a contour is for an index that none of its points has.
proof fn lemma_other_index(contour: Contour, contour_index: usize, index: GlyphPointIndex)
    requires
        index.contour_index != contour_index || forall|curve: int, point: int|
            #![trigger contour.curves@[curve].points@[point]]
            0 <= curve < contour.curves@.len() && 0 <= point < contour.curves@[curve].points@.len()
                ==> !(index.curve_index == curve && index.uuid
                == contour.curves@[curve].points@[point].uuid),
    ensures
        forall|i: int|
            0 <= i < contour.entries(contour_index).len() ==> (#[trigger] contour.entries(
                contour_index,
            )[i]).0 != index,
{
    let entries = contour.entries(contour_index);
    assert(contour.curves.len() == contour.curves@.len());
    assert forall|i: int| 0 <= i < entries.len() implies (#[trigger] entries[i]).0 != index by {
        let place = law_contour_entry(contour, contour_index, i);
        assert(contour.curves@[place.0].points@[place.1].uuid == entries[i].0.uuid);
    }
}

/// A contour has an entry for each of its points, and no later one for its index,
/// unless a later point of its curve has the same identifier.
proof fn lemma_own_index(contour: Contour, contour_index: usize, k: int, j: int) -> (at: int)
    requires
        0 <= k < contour.curves@.len(),
        0 <= j < contour.curves@[k].points@.len(),
    ensures
        0 <= at < contour.entries(contour_index).len(),
        contour.entries(contour_index)[at] == (
            GlyphPointIndex {
                contour_index,
                curve_index: k as usize,
                uuid: contour.curves@[k].points@[j].uuid,
            },
            contour.curves@[k].points@[j].position,
        ),
        (forall|other: int|
            j < other < contour.curves@[k].points@.len() ==> (
            #[trigger] contour.curves@[k].points@[other]).uuid
                != contour.curves@[k].points@[j].uuid) ==> forall|i: int|
            at < i < contour.entries(contour_index).len() ==> (#[trigger] contour.entries(
                contour_index,
            )[i]).0 != contour.entries(contour_index)[at].0,
{
    let entries = contour.entries(contour_index);
    law_contour_entries(contour, contour_index);
    assert(contour.curves.len() == contour.curves@.len());
    let at = points_before(contour.curves@, k) + j;
    assert(contour.curves@[k].points@[j].uuid == entries[at].0.uuid);
    if forall|other: int|
        j < other < contour.curves@[k].points@.len() ==> (
        #[trigger] contour.curves@[k].points@[other]).uuid != contour.curves@[k].points@[j].uuid {
        assert forall|i: int| at < i < entries.len() implies (#[trigger] entries[i]).0
            != entries[at].0 by {
            let place = law_contour_entry(contour, contour_index, i);
            if entries[i].0 == entries[at].0 {
                assert(place.0 == k && j < place.1);
                assert(contour.curves@[k].points@[place.1].uuid
                    != contour.curves@[k].points@[j].uuid);
            }
        }
    }
    at
}

/// To do the addition of a contour is to put each of its points into the table, under
/// the contour's number, its own curve and its own identifier, at its own position,
/// unless a later point of its curve has the same identifier. The table has all other
/// indices as it had them, and nothing else changes.
pub proof fn law_redo_contour(
    before: GlyphState,
    after: GlyphState,
    id: u64,
    contour_index: usize,
    contour: &Contour,
    k: int,
    j: int,
)
    requires
        is_redone(
            after,
            before,
            Change::AddContour { contour: id, contour_index },
            Outside::Contour(Some(contour)),
        ),
    ensures
        0 <= k < contour.curves@.len() && 0 <= j < contour.curves@[k].points@.len() ==> {
            let index = GlyphPointIndex {
                contour_index,
                curve_index: k as usize,
                uuid: contour.curves@[k].points@[j].uuid,
            };
            &&& after.kd_tree@.dom().contains(index)
            &&& (forall|other: int|
                j < other < contour.curves@[k].points@.len() ==> (
                #[trigger] contour.curves@[k].points@[other]).uuid
                    != contour.curves@[k].points@[j].uuid) ==> after.kd_tree@[index]
                == contour.curves@[k].points@[j].position
        },
        forall|index: GlyphPointIndex|
            #![trigger after.kd_tree@.dom().contains(index)]
            (index.contour_index != contour_index || forall|curve: int, point: int|
                #![trigger contour.curves@[curve].points@[point]]
                0 <= curve < contour.curves@.len() && 0 <= point
                    < contour.curves@[curve].points@.len() ==> !(index.curve_index == curve
                    && index.uuid == contour.curves@[curve].points@[point].uuid))
                ==> after.kd_tree@.dom().contains(index) == before.kd_tree@.dom().contains(index)
                && after.kd_tree@[index] == before.kd_tree@[index],
        after.glyph == before.glyph,
        after.selection == before.selection,
        after.tools == before.tools,
        after.active_tool == before.active_tool,
        after.panning_tool == before.panning_tool,
        after.reference == before.reference,
{
    let entries = contour.entries(contour_index);
    law_written(before.kd_tree@, entries);
    if 0 <= k < contour.curves@.len() && 0 <= j < contour.curves@[k].points@.len() {
        let at = lemma_own_index(*contour, contour_index, k, j);
        assert(after.kd_tree@.dom().contains(entries[at].0));
    }
    assert forall|index: GlyphPointIndex|
        #![trigger after.kd_tree@.dom().contains(index)]
        (index.contour_index != contour_index || forall|curve: int, point: int|
            #![trigger contour.curves@[curve].points@[point]]
            0 <= curve < contour.curves@.len() && 0 <= point < contour.curves@[curve].points@.len()
                ==> !(index.curve_index == curve && index.uuid
                == contour.curves@[curve].points@[point].uuid)) implies
        after.kd_tree@.dom().contains(index) == before.kd_tree@.dom().contains(index)
        && after.kd_tree@[index] == before.kd_tree@[index] by {
        lemma_other_index(*contour, contour_index, index);
        assert(insert_all(before.kd_tree@, entries)[index] == before.kd_tree@[index]);
    }
}

/// To undo the addition of a contour is to take each of its points out of the table.
/// The table has all other indices as it had them, and nothing else changes.
pub proof fn law_undo_contour(
    before: GlyphState,
    after: GlyphState,
    id: u64,
    contour_index: usize,
    contour: &Contour,
    k: int,
    j: int,
)
    requires
        is_undone(
            after,
            before,
            Change::AddContour { contour: id, contour_index },
            Outside::Contour(Some(contour)),
        ),
    ensures
        0 <= k < contour.curves@.len() && 0 <= j < contour.curves@[k].points@.len()
            ==> !after.kd_tree@.dom().contains(
            GlyphPointIndex {
                contour_index,
                curve_index: k as usize,
                uuid: contour.curves@[k].points@[j].uuid,
            },
        ),
        forall|index: GlyphPointIndex|
            #![trigger after.kd_tree@.dom().contains(index)]
            (index.contour_index != contour_index || forall|curve: int, point: int|
                #![trigger contour.curves@[curve].points@[point]]
                0 <= curve < contour.curves@.len() && 0 <= point
                    < contour.curves@[curve].points@.len() ==> !(index.curve_index == curve
                    && index.uuid == contour.curves@[curve].points@[point].uuid))
                ==> after.kd_tree@.dom().contains(index) == before.kd_tree@.dom().contains(index)
                && (before.kd_tree@.dom().contains(index) ==> after.kd_tree@[index]
                == before.kd_tree@[index]),
        after.glyph == before.glyph,
        after.selection == before.selection,
        after.tools == before.tools,
        after.active_tool == before.active_tool,
        after.panning_tool == before.panning_tool,
        after.reference == before.reference,
{
    let entries = contour.entries(contour_index);
    law_taken_out(before.kd_tree@, entries);
    if 0 <= k < contour.curves@.len() && 0 <= j < contour.curves@[k].points@.len() {
        let at = lemma_own_index(*contour, contour_index, k, j);
        assert(!after.kd_tree@.dom().contains(entries[at].0));
    }
    assert forall|index: GlyphPointIndex|
        #![trigger after.kd_tree@.dom().contains(index)]
        (index.contour_index != contour_index || forall|curve: int, point: int|
            #![trigger contour.curves@[curve].points@[point]]
            0 <= curve < contour.curves@.len() && 0 <= point < contour.curves@[curve].points@.len()
                ==> !(index.curve_index == curve && index.uuid
                == contour.curves@[curve].points@[point].uuid)) implies
        after.kd_tree@.dom().contains(index) == before.kd_tree@.dom().contains(index) && (
    before.kd_tree@.dom().contains(index) ==> after.kd_tree@[index] == before.kd_tree@[index]) by {
        lemma_other_index(*contour, contour_index, index);
    }
}

/// When a change can be done: a contour is its own or is gone, a guideline was made or
/// is at the position, and points are of contours that the glyph has and that are
/// named.
pub proof fn law_when_changes_can_be_done(
    before: GlyphState,
    id: u64,
    contour_index: usize,
    contour: &Contour,
    idx: usize,
    guideline: Guideline,
    m: Matrix,
    dangle: Real,
    placement: Placement,
    idxs: Vec<GlyphPointIndex>,
    moved: &[(GlyphPointIndex, Point)],
)
    ensures
        can_redo(
            before.glyph,
            Change::AddContour { contour: id, contour_index },
            Outside::Contour(Some(contour)),
        ) <==> contour.id == id,
        can_undo(
            before.glyph,
            Change::AddContour { contour: id, contour_index },
            Outside::Contour(Some(contour)),
        ) <==> contour.id == id,
        can_redo(
            before.glyph,
            Change::AddContour { contour: id, contour_index },
            Outside::Contour(None),
        ),
        can_undo(
            before.glyph,
            Change::AddContour { contour: id, contour_index },
            Outside::Contour(None),
        ),
        can_redo(before.glyph, Change::NewGuideline { number: idx }, Outside::Nothing) <==> idx
            < before.glyph.guidelines.objects().len(),
        can_undo(before.glyph, Change::NewGuideline { number: idx }, Outside::Nothing),
        can_redo(
            before.glyph,
            Change::DeleteGuideline { idx, guideline },
            Outside::Nothing,
        ) <==> idx < before.glyph.guidelines@.len(),
        can_undo(before.glyph, Change::DeleteGuideline { idx, guideline }, Outside::Nothing),
        can_redo(
            before.glyph,
            Change::TransformGuideline { idx, m, dangle },
            Outside::Placement(Some(placement)),
        ) <==> idx < before.glyph.guidelines@.len(),
        can_undo(
            before.glyph,
            Change::TransformGuideline { idx, m, dangle },
            Outside::Placement(Some(placement)),
        ) <==> idx < before.glyph.guidelines@.len(),
        (forall|i: int|
            0 <= i < idxs@.len() ==> (#[trigger] idxs@[i]).contour_index
                < before.glyph.contours@.len()) && (forall|i: int|
            0 <= i < moved@.len() ==> exists|j: int|
                0 <= j < idxs@.len() && (#[trigger] idxs@[j]).contour_index == (
                #[trigger] moved@[i]).0.contour_index) ==> can_redo(
            before.glyph,
            Change::TransformPoints { idxs, m },
            Outside::Moves(Some(moved)),
        ) && can_undo(
            before.glyph,
            Change::TransformPoints { idxs, m },
            Outside::Moves(Some(moved)),
        ),
{
    lemma_contours_of(idxs@);
}

} // verus!
