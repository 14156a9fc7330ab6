//! Redoing and undoing changes.

use vstd::prelude::*;

use crate::action::Change;
use crate::glyphs::{Contour, Glyph, GlyphPointIndex, Point};
use crate::change_laws::{law_moving_a_point, law_moving_in_the_table, law_redo_addition};
use crate::change_laws::{law_redo_deletion, law_transform_a_guideline, law_undo_addition};
use crate::change_laws::law_undo_deletion;
use crate::guidelines::{without_last, Guideline, Placement};
use crate::range_query::{indices, insert_all};
use crate::state::{in_glyph, within, GlyphState};

verus! {

/// What a change needs from outside when it is redone or undone.
#[derive(Clone, Copy, Debug)]
pub enum Outside<'a> {
    /// Nothing.
    Nothing,
    /// The contour that it is about, as it is now, if it is still there.
    Contour(Option<&'a Contour>),
    /// Where a transformation takes the guideline. There is no place if the
    /// transformation has no inverse.
    Placement(Option<Placement>),
    /// Where a transformation takes points. There are no places if the
    /// transformation has no inverse.
    Moves(Option<&'a [(GlyphPointIndex, Point)]>),
}

/// Whether `outside` is what the change needs, and the glyph has what the change
/// is about.
pub open spec fn can_redo(glyph: Glyph, change: Change, outside: Outside) -> bool {
    match change {
        Change::AddContour { contour, .. } => outside matches Outside::Contour(found) && (
        found matches Some(of) ==> of.id == contour),
        Change::NewGuideline { number } => outside is Nothing && number
            < glyph.guidelines.objects().len(),
        Change::DeleteGuideline { idx, .. } => outside is Nothing && idx < glyph.guidelines@.len(),
        Change::TransformGuideline { idx, .. } => outside matches Outside::Placement(Some(_))
            && idx < glyph.guidelines@.len(),
        Change::TransformPoints { idxs, .. } => outside matches Outside::Moves(Some(moved))
            && in_glyph(glyph, idxs@) && within(moved@, idxs@),
    }
}

/// Whether `outside` is what the change needs to be undone, and the glyph has
/// what the change is about.
pub open spec fn can_undo(glyph: Glyph, change: Change, outside: Outside) -> bool {
    match change {
        Change::AddContour { contour, .. } => outside matches Outside::Contour(found) && (
        found matches Some(of) ==> of.id == contour),
        Change::NewGuideline { .. } | Change::DeleteGuideline { .. } => outside is Nothing,
        Change::TransformGuideline { idx, .. } => outside matches Outside::Placement(placement) && (
        placement is Some ==> idx < glyph.guidelines@.len()),
        Change::TransformPoints { idxs, .. } => outside matches Outside::Moves(moved) && (
        moved matches Some(to) ==> in_glyph(glyph, idxs@) && within(to@, idxs@)),
    }
}

/// `after` is what redoing the change makes of `before`.
pub open spec fn is_redone(
    after: GlyphState,
    before: GlyphState,
    change: Change,
    outside: Outside,
) -> bool {
    match (change, outside) {
        (Change::AddContour { contour_index, .. }, Outside::Contour(Some(contour))) => {
            after.has_places(before, insert_all(before.kd_tree@, contour.entries(contour_index)))
        },
        (Change::AddContour { .. }, Outside::Contour(None)) => after == before,
        (Change::NewGuideline { number }, _) => after.has_guidelines(
            before,
            before.glyph.guidelines.objects(),
            before.glyph.guidelines.numbers().push(number),
        ),
        (Change::DeleteGuideline { idx, .. }, _) => after.has_guidelines(
            before,
            before.glyph.guidelines.objects(),
            before.glyph.guidelines.numbers().remove(idx as int),
        ),
        (
            Change::TransformGuideline { idx, .. },
            Outside::Placement(Some(placement)),
        ) => after.has_guidelines(
            before,
            before.glyph.guidelines.placed(idx as int, placement),
            before.glyph.guidelines.numbers(),
        ),
        (
            Change::TransformPoints { idxs, .. },
            Outside::Moves(Some(moved)),
        ) => after.has_transformed(before, idxs@, moved@),
        _ => false,
    }
}

/// `after` is what undoing the change makes of `before`.
pub open spec fn is_undone(
    after: GlyphState,
    before: GlyphState,
    change: Change,
    outside: Outside,
) -> bool {
    match (change, outside) {
        (Change::AddContour { contour_index, .. }, Outside::Contour(Some(contour))) => {
            after.has_places(
                before,
                before.kd_tree@.remove_keys(indices(contour.entries(contour_index))),
            )
        },
        (Change::NewGuideline { .. }, _) => after.has_guidelines(
            before,
            before.glyph.guidelines.objects(),
            without_last(before.glyph.guidelines.numbers()),
        ),
        (Change::DeleteGuideline { guideline, .. }, _) => after.has_guidelines(
            before,
            before.glyph.guidelines.objects().push(guideline),
            before.glyph.guidelines.numbers().push(
                before.glyph.guidelines.objects().len() as usize,
            ),
        ),
        (
            Change::TransformGuideline { idx, .. },
            Outside::Placement(Some(placement)),
        ) => after.has_guidelines(
            before,
            before.glyph.guidelines.placed(idx as int, placement),
            before.glyph.guidelines.numbers(),
        ),
        (
            Change::TransformPoints { idxs, .. },
            Outside::Moves(Some(moved)),
        ) => after.has_transformed(before, idxs@, moved@),
        _ => after == before,
    }
}

impl GlyphState {
    /// Does a change, or does it again. The result says whether the view is to be
    /// drawn again: for all but an added contour.
    pub fn redo(&mut self, change: &Change, outside: Outside) -> (redraw: bool)
        requires
            old(self).wf(),
            can_redo(old(self).glyph, *change, outside),
        ensures
            final(self).wf(),
            is_redone(*final(self), *old(self), *change, outside),
            redraw == !(change is AddContour),
            *change matches Change::DeleteGuideline { idx, .. } ==> {
                &&& final(self).glyph.guidelines@.len() == old(self).glyph.guidelines@.len() - 1
                &&& forall|i: int|
                    0 <= i < idx ==> (#[trigger] final(self).glyph.guidelines@[i])
                        == old(self).glyph.guidelines@[i]
                &&& forall|i: int|
                    idx <= i < old(self).glyph.guidelines@.len() - 1
                        ==> (#[trigger] final(self).glyph.guidelines@[i])
                        == old(self).glyph.guidelines@[i + 1]
            },
            *change matches Change::NewGuideline { number } ==> {
                &&& final(self).glyph.guidelines@.len() == old(self).glyph.guidelines@.len() + 1
                &&& forall|i: int|
                    0 <= i < old(self).glyph.guidelines@.len()
                        ==> (#[trigger] final(self).glyph.guidelines@[i])
                        == old(self).glyph.guidelines@[i]
                &&& final(self).glyph.guidelines@.last()
                    == old(self).glyph.guidelines.objects()[number as int]
            },
            *change matches Change::TransformGuideline { idx, .. } ==> (
            outside matches Outside::Placement(Some(placement)) ==> {
                &&& final(self).glyph.guidelines@.len() == old(self).glyph.guidelines@.len()
                &&& final(self).glyph.guidelines@[idx as int] == (Guideline {
                    identifier: old(self).glyph.guidelines@[idx as int].identifier,
                    x: placement.x,
                    y: placement.y,
                    angle: placement.angle,
                })
                &&& forall|i: int|
                    0 <= i < old(self).glyph.guidelines@.len()
                        && old(self).glyph.guidelines.numbers()[i]
                        != old(self).glyph.guidelines.numbers()[idx as int]
                        ==> (#[trigger] final(self).glyph.guidelines@[i])
                        == old(self).glyph.guidelines@[i]
            }),
            *change is TransformPoints ==> (outside matches Outside::Moves(Some(moved)) ==> {
                &&& forall|i: int|
                    #![trigger moved@[i]]
                    0 <= i < moved@.len() && (forall|later: int|
                        i < later < moved@.len() ==> (#[trigger] moved@[later]).0 != moved@[i].0)
                        ==> final(self).kd_tree@.dom().contains(moved@[i].0)
                        && final(self).kd_tree@[moved@[i].0] == moved@[i].1
                &&& forall|index: GlyphPointIndex|
                    (forall|i: int| 0 <= i < moved@.len() ==> (#[trigger] moved@[i]).0 != index)
                        ==> (#[trigger] final(self).kd_tree@.dom().contains(index))
                            == old(self).kd_tree@.dom().contains(index)
                &&& forall|index: GlyphPointIndex|
                    (forall|i: int| 0 <= i < moved@.len() ==> (#[trigger] moved@[i]).0 != index)
                        ==> (#[trigger] final(self).kd_tree@[index]) == old(self).kd_tree@[index]
                &&& forall|c: int, k: int, j: int, i: int|
                    #![trigger old(self).glyph.contours@[c].curves@[k].points@[j], moved@[i]]
                    0 <= c < old(self).glyph.contours@.len()
                        && 0 <= k < old(self).glyph.contours@[c].curves@.len()
                        && 0 <= j < old(self).glyph.contours@[c].curves@[k].points@.len()
                        && 0 <= i < moved@.len()
                        && moved@[i].0.contour_index == c && moved@[i].0.curve_index == k
                        && moved@[i].0.uuid
                            == old(self).glyph.contours@[c].curves@[k].points@[j].uuid
                            && (forall|later: int|
                        i < later < moved@.len() ==> (#[trigger] moved@[later]).0 != moved@[i].0)
                        ==> final(self).glyph.contours@[c].curves@[k].points@[j].position
                        == moved@[i].1
                &&& forall|c: int, k: int, j: int|
                    #![trigger old(self).glyph.contours@[c].curves@[k].points@[j]]
                    0 <= c < old(self).glyph.contours@.len()
                        && 0 <= k < old(self).glyph.contours@[c].curves@.len()
                        && 0 <= j < old(self).glyph.contours@[c].curves@[k].points@.len()
                        && (forall|i: int|
                        0 <= i < moved@.len() ==> !((#[trigger] moved@[i]).0.contour_index == c
                            && moved@[i].0.curve_index == k && moved@[i].0.uuid
                                == old(self).glyph.contours@[c].curves@[k].points@[j].uuid))
                        ==> final(self).glyph.contours@[c].curves@[k].points@[j]
                            == old(self).glyph.contours@[c].curves@[k].points@[j]
            }),
    {
        let redraw = match (change, outside) {
            (Change::AddContour { contour_index, .. }, Outside::Contour(Some(contour))) => {
                self.redo_add_contour(contour, *contour_index)
            },
            (Change::NewGuideline { number }, _) => self.redo_new_guideline(*number),
            (Change::DeleteGuideline { idx, .. }, _) => self.redo_delete_guideline(*idx),
            (Change::TransformGuideline { idx, .. }, Outside::Placement(Some(placement))) => {
                self.redo_transform_guideline(*idx, placement)
            },
            (Change::TransformPoints { idxs, .. }, Outside::Moves(Some(moved))) => {
                self.redo_transform_points(idxs, moved)
            },
            _ => false,
        };
        proof {
            lemma_redone(*old(self), *self, *change, outside);
        }
        redraw
    }

    /// Undoes a change. The result says whether the view is to be drawn again:
    /// for all but an added contour and a transformation without an inverse.
    pub fn undo(&mut self, change: &Change, outside: Outside) -> (redraw: bool)
        requires
            old(self).wf(),
            can_undo(old(self).glyph, *change, outside),
        ensures
            final(self).wf(),
            is_undone(*final(self), *old(self), *change, outside),
            redraw == !(change is AddContour || outside matches Outside::Placement(None)
                || outside matches Outside::Moves(None)),
            *change matches Change::DeleteGuideline { guideline, .. } ==> {
                &&& final(self).glyph.guidelines@.len() == old(self).glyph.guidelines@.len() + 1
                &&& forall|i: int|
                    0 <= i < old(self).glyph.guidelines@.len()
                        ==> (#[trigger] final(self).glyph.guidelines@[i])
                        == old(self).glyph.guidelines@[i]
                &&& final(self).glyph.guidelines@.last() == guideline
            },
            *change is NewGuideline ==> {
                &&& final(self).glyph.guidelines@.len() == (if old(self).glyph.guidelines@.len()
                    == 0 {
                    0
                } else {
                    old(self).glyph.guidelines@.len() - 1
                })
                &&& forall|i: int|
                    0 <= i < final(self).glyph.guidelines@.len()
                        ==> (#[trigger] final(self).glyph.guidelines@[i])
                        == old(self).glyph.guidelines@[i]
            },
            *change matches Change::TransformGuideline { idx, .. } ==> (
            outside matches Outside::Placement(Some(placement)) ==> {
                &&& final(self).glyph.guidelines@.len() == old(self).glyph.guidelines@.len()
                &&& final(self).glyph.guidelines@[idx as int] == (Guideline {
                    identifier: old(self).glyph.guidelines@[idx as int].identifier,
                    x: placement.x,
                    y: placement.y,
                    angle: placement.angle,
                })
                &&& forall|i: int|
                    0 <= i < old(self).glyph.guidelines@.len()
                        && old(self).glyph.guidelines.numbers()[i]
                        != old(self).glyph.guidelines.numbers()[idx as int]
                        ==> (#[trigger] final(self).glyph.guidelines@[i])
                        == old(self).glyph.guidelines@[i]
            }),
            *change is TransformPoints ==> (outside matches Outside::Moves(Some(moved)) ==> {
                &&& forall|i: int|
                    #![trigger moved@[i]]
                    0 <= i < moved@.len() && (forall|later: int|
                        i < later < moved@.len() ==> (#[trigger] moved@[later]).0 != moved@[i].0)
                        ==> final(self).kd_tree@.dom().contains(moved@[i].0)
                        && final(self).kd_tree@[moved@[i].0] == moved@[i].1
                &&& forall|index: GlyphPointIndex|
                    (forall|i: int| 0 <= i < moved@.len() ==> (#[trigger] moved@[i]).0 != index)
                        ==> (#[trigger] final(self).kd_tree@.dom().contains(index))
                            == old(self).kd_tree@.dom().contains(index)
                &&& forall|index: GlyphPointIndex|
                    (forall|i: int| 0 <= i < moved@.len() ==> (#[trigger] moved@[i]).0 != index)
                        ==> (#[trigger] final(self).kd_tree@[index]) == old(self).kd_tree@[index]
                &&& forall|c: int, k: int, j: int, i: int|
                    #![trigger old(self).glyph.contours@[c].curves@[k].points@[j], moved@[i]]
                    0 <= c < old(self).glyph.contours@.len()
                        && 0 <= k < old(self).glyph.contours@[c].curves@.len()
                        && 0 <= j < old(self).glyph.contours@[c].curves@[k].points@.len()
                        && 0 <= i < moved@.len()
                        && moved@[i].0.contour_index == c && moved@[i].0.curve_index == k
                        && moved@[i].0.uuid
                            == old(self).glyph.contours@[c].curves@[k].points@[j].uuid
                            && (forall|later: int|
                        i < later < moved@.len() ==> (#[trigger] moved@[later]).0 != moved@[i].0)
                        ==> final(self).glyph.contours@[c].curves@[k].points@[j].position
                        == moved@[i].1
                &&& forall|c: int, k: int, j: int|
                    #![trigger old(self).glyph.contours@[c].curves@[k].points@[j]]
                    0 <= c < old(self).glyph.contours@.len()
                        && 0 <= k < old(self).glyph.contours@[c].curves@.len()
                        && 0 <= j < old(self).glyph.contours@[c].curves@[k].points@.len()
                        && (forall|i: int|
                        0 <= i < moved@.len() ==> !((#[trigger] moved@[i]).0.contour_index == c
                            && moved@[i].0.curve_index == k && moved@[i].0.uuid
                                == old(self).glyph.contours@[c].curves@[k].points@[j].uuid))
                        ==> final(self).glyph.contours@[c].curves@[k].points@[j]
                            == old(self).glyph.contours@[c].curves@[k].points@[j]
            }),
    {
        let redraw = match (change, outside) {
            (Change::AddContour { contour_index, .. }, Outside::Contour(Some(contour))) => {
                self.undo_add_contour(contour, *contour_index)
            },
            (Change::NewGuideline { .. }, _) => self.undo_new_guideline(),
            (Change::DeleteGuideline { guideline, .. }, _) => self.undo_delete_guideline(
                *guideline,
            ),
            (Change::TransformGuideline { idx, .. }, Outside::Placement(placement)) => {
                self.undo_transform_guideline(*idx, placement)
            },
            (Change::TransformPoints { idxs, .. }, Outside::Moves(moved)) => {
                self.undo_transform_points(idxs, moved)
            },
            _ => false,
        };
        proof {
            lemma_undone(*old(self), *self, *change, outside);
        }
        redraw
    }
}

/// What redoing a change does, in terms of the list of guidelines, of the points and of the table.
proof fn lemma_redone(before: GlyphState, after: GlyphState, change: Change, outside: Outside)
    requires
        before.wf(),
        can_redo(before.glyph, change, outside),
        is_redone(after, before, change, outside),
    ensures
        change matches Change::DeleteGuideline { idx, .. } ==> {
            &&& after.glyph.guidelines@.len() == before.glyph.guidelines@.len() - 1
            &&& forall|i: int|
                0 <= i < idx ==> (#[trigger] after.glyph.guidelines@[i])
                    == before.glyph.guidelines@[i]
            &&& forall|i: int|
                idx <= i < before.glyph.guidelines@.len() - 1
                    ==> (#[trigger] after.glyph.guidelines@[i]) == before.glyph.guidelines@[i + 1]
        },
        change matches Change::NewGuideline { number } ==> {
            &&& after.glyph.guidelines@.len() == before.glyph.guidelines@.len() + 1
            &&& forall|i: int|
                0 <= i < before.glyph.guidelines@.len()
                    ==> (#[trigger] after.glyph.guidelines@[i]) == before.glyph.guidelines@[i]
            &&& after.glyph.guidelines@.last() == before.glyph.guidelines.objects()[number as int]
        },
        change matches Change::TransformGuideline { idx, .. } ==> (
        outside matches Outside::Placement(Some(placement)) ==> {
            &&& after.glyph.guidelines@.len() == before.glyph.guidelines@.len()
            &&& after.glyph.guidelines@[idx as int] == (Guideline {
                identifier: before.glyph.guidelines@[idx as int].identifier,
                x: placement.x,
                y: placement.y,
                angle: placement.angle,
            })
            &&& forall|i: int|
                0 <= i < before.glyph.guidelines@.len() && before.glyph.guidelines.numbers()[i]
                    != before.glyph.guidelines.numbers()[idx as int]
                    ==> (#[trigger] after.glyph.guidelines@[i]) == before.glyph.guidelines@[i]
        }),
        change is TransformPoints ==> (outside matches Outside::Moves(Some(moved)) ==> {
            &&& forall|i: int|
                #![trigger moved@[i]]
                0 <= i < moved@.len() && (forall|later: int|
                    i < later < moved@.len() ==> (#[trigger] moved@[later]).0 != moved@[i].0)
                    ==> after.kd_tree@.dom().contains(moved@[i].0)
                    && after.kd_tree@[moved@[i].0] == moved@[i].1
            &&& forall|index: GlyphPointIndex|
                (forall|i: int| 0 <= i < moved@.len() ==> (#[trigger] moved@[i]).0 != index)
                    ==> (#[trigger] after.kd_tree@.dom().contains(index))
                        == before.kd_tree@.dom().contains(index)
            &&& forall|index: GlyphPointIndex|
                (forall|i: int| 0 <= i < moved@.len() ==> (#[trigger] moved@[i]).0 != index)
                    ==> (#[trigger] after.kd_tree@[index]) == before.kd_tree@[index]
            &&& forall|c: int, k: int, j: int, i: int|
                #![trigger before.glyph.contours@[c].curves@[k].points@[j], moved@[i]]
                0 <= c < before.glyph.contours@.len()
                    && 0 <= k < before.glyph.contours@[c].curves@.len()
                    && 0 <= j < before.glyph.contours@[c].curves@[k].points@.len()
                    && 0 <= i < moved@.len()
                    && moved@[i].0.contour_index == c && moved@[i].0.curve_index == k
                    && moved@[i].0.uuid == before.glyph.contours@[c].curves@[k].points@[j].uuid
                        && (forall|later: int|
                    i < later < moved@.len() ==> (#[trigger] moved@[later]).0 != moved@[i].0)
                    ==> after.glyph.contours@[c].curves@[k].points@[j].position
                    == moved@[i].1
            &&& forall|c: int, k: int, j: int|
                #![trigger before.glyph.contours@[c].curves@[k].points@[j]]
                0 <= c < before.glyph.contours@.len()
                    && 0 <= k < before.glyph.contours@[c].curves@.len()
                    && 0 <= j < before.glyph.contours@[c].curves@[k].points@.len()
                    && (forall|i: int|
                    0 <= i < moved@.len() ==> !((#[trigger] moved@[i]).0.contour_index == c
                        && moved@[i].0.curve_index == k && moved@[i].0.uuid
                            == before.glyph.contours@[c].curves@[k].points@[j].uuid))
                    ==> after.glyph.contours@[c].curves@[k].points@[j]
                        == before.glyph.contours@[c].curves@[k].points@[j]
        }),
{
    match (change, outside) {
        (Change::DeleteGuideline { idx, guideline }, _) => {
            law_redo_deletion(before, after, idx, guideline);
        },
        (Change::NewGuideline { number }, _) => {
            law_redo_addition(before, after, number);
        },
        (
            Change::TransformGuideline { idx, m, dangle },
            Outside::Placement(Some(placement)),
        ) => law_transform_a_guideline(before, after, idx, m, dangle, placement),
        (Change::TransformPoints { .. }, Outside::Moves(Some(moved))) => lemma_moved(
            before,
            after,
            moved@,
        ),
        _ => {},
    }
}

/// What undoing a change does, in terms of the list of guidelines, of the points and of the table.
proof fn lemma_undone(before: GlyphState, after: GlyphState, change: Change, outside: Outside)
    requires
        before.wf(),
        can_undo(before.glyph, change, outside),
        is_undone(after, before, change, outside),
    ensures
        change matches Change::DeleteGuideline { guideline, .. } ==> {
            &&& after.glyph.guidelines@.len() == before.glyph.guidelines@.len() + 1
            &&& forall|i: int|
                0 <= i < before.glyph.guidelines@.len()
                    ==> (#[trigger] after.glyph.guidelines@[i]) == before.glyph.guidelines@[i]
            &&& after.glyph.guidelines@.last() == guideline
        },
        change is NewGuideline ==> {
            &&& after.glyph.guidelines@.len() == (if before.glyph.guidelines@.len()
                == 0 {
                0
            } else {
                before.glyph.guidelines@.len() - 1
            })
            &&& forall|i: int|
                0 <= i < after.glyph.guidelines@.len()
                    ==> (#[trigger] after.glyph.guidelines@[i]) == before.glyph.guidelines@[i]
        },
        change matches Change::TransformGuideline { idx, .. } ==> (
        outside matches Outside::Placement(Some(placement)) ==> {
            &&& after.glyph.guidelines@.len() == before.glyph.guidelines@.len()
            &&& after.glyph.guidelines@[idx as int] == (Guideline {
                identifier: before.glyph.guidelines@[idx as int].identifier,
                x: placement.x,
                y: placement.y,
                angle: placement.angle,
            })
            &&& forall|i: int|
                0 <= i < before.glyph.guidelines@.len() && before.glyph.guidelines.numbers()[i]
                    != before.glyph.guidelines.numbers()[idx as int]
                    ==> (#[trigger] after.glyph.guidelines@[i]) == before.glyph.guidelines@[i]
        }),
        change is TransformPoints ==> (outside matches Outside::Moves(Some(moved)) ==> {
            &&& forall|i: int|
                #![trigger moved@[i]]
                0 <= i < moved@.len() && (forall|later: int|
                    i < later < moved@.len() ==> (#[trigger] moved@[later]).0 != moved@[i].0)
                    ==> after.kd_tree@.dom().contains(moved@[i].0)
                    && after.kd_tree@[moved@[i].0] == moved@[i].1
            &&& forall|index: GlyphPointIndex|
                (forall|i: int| 0 <= i < moved@.len() ==> (#[trigger] moved@[i]).0 != index)
                    ==> (#[trigger] after.kd_tree@.dom().contains(index))
                        == before.kd_tree@.dom().contains(index)
            &&& forall|index: GlyphPointIndex|
                (forall|i: int| 0 <= i < moved@.len() ==> (#[trigger] moved@[i]).0 != index)
                    ==> (#[trigger] after.kd_tree@[index]) == before.kd_tree@[index]
            &&& forall|c: int, k: int, j: int, i: int|
                #![trigger before.glyph.contours@[c].curves@[k].points@[j], moved@[i]]
                0 <= c < before.glyph.contours@.len()
                    && 0 <= k < before.glyph.contours@[c].curves@.len()
                    && 0 <= j < before.glyph.contours@[c].curves@[k].points@.len()
                    && 0 <= i < moved@.len()
                    && moved@[i].0.contour_index == c && moved@[i].0.curve_index == k
                    && moved@[i].0.uuid == before.glyph.contours@[c].curves@[k].points@[j].uuid
                        && (forall|later: int|
                    i < later < moved@.len() ==> (#[trigger] moved@[later]).0 != moved@[i].0)
                    ==> after.glyph.contours@[c].curves@[k].points@[j].position
                    == moved@[i].1
            &&& forall|c: int, k: int, j: int|
                #![trigger before.glyph.contours@[c].curves@[k].points@[j]]
                0 <= c < before.glyph.contours@.len()
                    && 0 <= k < before.glyph.contours@[c].curves@.len()
                    && 0 <= j < before.glyph.contours@[c].curves@[k].points@.len()
                    && (forall|i: int|
                    0 <= i < moved@.len() ==> !((#[trigger] moved@[i]).0.contour_index == c
                        && moved@[i].0.curve_index == k && moved@[i].0.uuid
                            == before.glyph.contours@[c].curves@[k].points@[j].uuid))
                    ==> after.glyph.contours@[c].curves@[k].points@[j]
                        == before.glyph.contours@[c].curves@[k].points@[j]
        }),
{
    match (change, outside) {
        (Change::DeleteGuideline { idx, guideline }, _) => {
            law_undo_deletion(before, after, idx, guideline);
        },
        (Change::NewGuideline { number }, _) => {
            law_undo_addition(before, after, number);
        },
        (
            Change::TransformGuideline { idx, m, dangle },
            Outside::Placement(Some(placement)),
        ) => law_transform_a_guideline(before, after, idx, m, dangle, placement),
        (Change::TransformPoints { .. }, Outside::Moves(Some(moved))) => lemma_moved(
            before,
            after,
            moved@,
        ),
        _ => {},
    }
}

/// What moving points does, in the glyph and in the table.
proof fn lemma_moved(
    before: GlyphState,
    after: GlyphState,
    moved: Seq<(GlyphPointIndex, Point)>,
)
    requires
        after.has_moved(before, moved),
    ensures
        forall|i: int|
                    #![trigger moved[i]]
                    0 <= i < moved.len() && (forall|later: int|
                        i < later < moved.len() ==> (#[trigger] moved[later]).0 != moved[i].0)
                        ==> after.kd_tree@.dom().contains(moved[i].0)
                        && after.kd_tree@[moved[i].0] == moved[i].1,
        forall|index: GlyphPointIndex|
                    (forall|i: int| 0 <= i < moved.len() ==> (#[trigger] moved[i]).0 != index)
                        ==> (#[trigger] after.kd_tree@.dom().contains(index))
                            == before.kd_tree@.dom().contains(index),
        forall|index: GlyphPointIndex|
                    (forall|i: int| 0 <= i < moved.len() ==> (#[trigger] moved[i]).0 != index)
                        ==> (#[trigger] after.kd_tree@[index]) == before.kd_tree@[index],
        forall|c: int, k: int, j: int, i: int|
                    #![trigger before.glyph.contours@[c].curves@[k].points@[j], moved[i]]
                    0 <= c < before.glyph.contours@.len()
                        && 0 <= k < before.glyph.contours@[c].curves@.len()
                        && 0 <= j < before.glyph.contours@[c].curves@[k].points@.len()
                        && 0 <= i < moved.len()
                        && moved[i].0.contour_index == c && moved[i].0.curve_index == k
                        && moved[i].0.uuid
                            == before.glyph.contours@[c].curves@[k].points@[j].uuid
                            && (forall|later: int|
                        i < later < moved.len() ==> (#[trigger] moved[later]).0 != moved[i].0)
                        ==> after.glyph.contours@[c].curves@[k].points@[j].position
                        == moved[i].1,
        forall|c: int, k: int, j: int|
                    #![trigger before.glyph.contours@[c].curves@[k].points@[j]]
                    0 <= c < before.glyph.contours@.len()
                        && 0 <= k < before.glyph.contours@[c].curves@.len()
                        && 0 <= j < before.glyph.contours@[c].curves@[k].points@.len()
                        && (forall|i: int|
                        0 <= i < moved.len() ==> !((#[trigger] moved[i]).0.contour_index == c
                            && moved[i].0.curve_index == k && moved[i].0.uuid
                                == before.glyph.contours@[c].curves@[k].points@[j].uuid))
                        ==> after.glyph.contours@[c].curves@[k].points@[j]
                            == before.glyph.contours@[c].curves@[k].points@[j],
{
    law_moving_in_the_table(before, after, moved);
    assert forall|c: int, k: int, j: int, i: int|
        #![trigger before.glyph.contours@[c].curves@[k].points@[j], moved[i]]
        0 <= c < before.glyph.contours@.len() && 0 <= k < before.glyph.contours@[c].curves@.len()
            && 0 <= j < before.glyph.contours@[c].curves@[k].points@.len() && 0 <= i < moved.len()
            && moved[i].0.contour_index == c && moved[i].0.curve_index == k && moved[i].0.uuid
            == before.glyph.contours@[c].curves@[k].points@[j].uuid && (forall|later: int|
            i < later < moved.len() ==> (#[trigger] moved[later]).0 != moved[i].0) implies
        after.glyph.contours@[c].curves@[k].points@[j].position == moved[i].1 by {
        law_moving_a_point(before, after, moved, c, k, j);
    }
    assert forall|c: int, k: int, j: int|
        #![trigger before.glyph.contours@[c].curves@[k].points@[j]]
        0 <= c < before.glyph.contours@.len() && 0 <= k < before.glyph.contours@[c].curves@.len()
            && 0 <= j < before.glyph.contours@[c].curves@[k].points@.len() && (forall|i: int|
            0 <= i < moved.len() ==> !((#[trigger] moved[i]).0.contour_index == c
                && moved[i].0.curve_index == k && moved[i].0.uuid
                == before.glyph.contours@[c].curves@[k].points@[j].uuid)) implies
        after.glyph.contours@[c].curves@[k].points@[j]
        == before.glyph.contours@[c].curves@[k].points@[j] by {
        law_moving_a_point(before, after, moved, c, k, j);
    }
}

} // verus!
