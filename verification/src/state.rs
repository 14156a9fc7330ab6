//! The state of an editing session: the glyph, its points by position, what is
//! selected, and the changes that can be made.

use std::collections::HashSet;

use vstd::prelude::*;

use crate::action::{Action, Change, EventStamp, Subject};
use crate::action::{item_id, item_stamp, points_id, points_stamp};
use crate::glyphs::{Contour, Glyph, GlyphPointIndex, Matrix, Point, Real};
use crate::guidelines::{without_last, Guideline, Placement};
use crate::history::{is_redone, Outside};
use crate::laws::law_points_to_transform;
use crate::range_query::{indices, insert_all, mentions, PointTable};
use crate::range_query::{lemma_insert_all_add, lemma_insert_all_at};
use crate::selection::{marks_after, selection_after, Selection, SelectionModifier};
use crate::toolbox::{no_tools, tools_of, Tools, INVALID_TYPE};

verus! {

/// The contours that the points belong to, each once, in the order in which
/// they first come up.
pub open spec fn contours_of(idxs: Seq<GlyphPointIndex>) -> Seq<usize>
    decreases idxs.len(),
{
    if idxs.len() == 0 {
        Seq::empty()
    } else {
        let before = contours_of(idxs.drop_last());
        if before.contains(idxs.last().contour_index) {
            before
        } else {
            before.push(idxs.last().contour_index)
        }
    }
}

/// Every point belongs to a contour that the glyph has.
pub open spec fn in_glyph(glyph: Glyph, idxs: Seq<GlyphPointIndex>) -> bool {
    forall|i: int|
        0 <= i < idxs.len() ==> (#[trigger] idxs[i]).contour_index < glyph.contours@.len()
}

/// Every moved point belongs to a contour that a point of `idxs` belongs to.
pub open spec fn within(
    moved: Seq<(GlyphPointIndex, Point)>,
    idxs: Seq<GlyphPointIndex>,
) -> bool {
    forall|i: int|
        0 <= i < moved.len() ==> contours_of(idxs).contains((#[trigger] moved[i]).0.contour_index)
}

/// Both tables have the index at the same position, or neither has it.
pub open spec fn same_place(
    one: Map<GlyphPointIndex, Point>,
    other: Map<GlyphPointIndex, Point>,
    index: GlyphPointIndex,
) -> bool {
    &&& one.contains_key(index) == other.contains_key(index)
    &&& one.contains_key(index) ==> one[index] == other[index]
}

/// The `c`-th contour of `after` is that of `before`, point by point, and so is
/// what the table has of it.
pub open spec fn keeps_contour(after: GlyphState, before: GlyphState, c: usize) -> bool {
    &&& c < before.glyph.contours@.len() ==> {
        let old_contour = before.glyph.contours@[c as int];
        let new_contour = after.glyph.contours@[c as int];
        &&& c < after.glyph.contours@.len()
        &&& new_contour.id == old_contour.id
        &&& new_contour.curves@.len() == old_contour.curves@.len()
        &&& forall|k: int|
            0 <= k < old_contour.curves@.len() ==> (#[trigger] new_contour.curves@[k]).points@
                == old_contour.curves@[k].points@
        &&& new_contour.entries(c) == old_contour.entries(c)
    }
    &&& forall|index: GlyphPointIndex|
        index.contour_index == c ==> #[trigger] same_place(after.kd_tree@, before.kd_tree@, index)
}

/// The points of the given contours that `idxs` names, with their positions,
/// contour by contour.
pub open spec fn chosen_in(
    glyph: Glyph,
    contours: Seq<usize>,
    idxs: Seq<GlyphPointIndex>,
) -> Seq<(GlyphPointIndex, Point)>
    decreases contours.len(),
{
    if contours.len() == 0 {
        Seq::empty()
    } else {
        chosen_in(glyph, contours.drop_last(), idxs)
            + glyph.contours@[contours.last() as int].chosen(contours.last(), idxs)
    }
}

/// The state of an editing session. The glyph that the session was opened on is
/// kept outside, under the number `reference`; `glyph` is what became of it.
#[derive(Debug)]
pub struct GlyphState {
    pub glyph: Glyph,
    pub reference: u64,
    pub tools: Tools,
    pub active_tool: usize,
    pub panning_tool: usize,
    pub selection: Selection,
    pub kd_tree: PointTable,
}

impl GlyphState {
    /// The guidelines, the table of points and the selection are in order.
    pub open spec fn wf(self) -> bool {
        &&& self.glyph.guidelines.wf()
        &&& self.kd_tree.wf()
        &&& self.selection.wf()
    }

    /// `self` and `other` were opened on the same glyph, and have the same tools
    /// and the same selection.
    pub open spec fn same_session(self, other: GlyphState) -> bool {
        &&& self.reference == other.reference
        &&& self.tools == other.tools
        &&& self.active_tool == other.active_tool
        &&& self.panning_tool == other.panning_tool
        &&& self.selection == other.selection
    }

    /// `self` is `before` with other guidelines: all that were made, and the
    /// numbers of those that are on the list.
    pub open spec fn has_guidelines(
        self,
        before: GlyphState,
        objects: Seq<Guideline>,
        numbers: Seq<usize>,
    ) -> bool {
        &&& self.same_session(before)
        &&& self.kd_tree == before.kd_tree
        &&& self.glyph.name_markup == before.glyph.name_markup
        &&& self.glyph.width == before.glyph.width
        &&& self.glyph.contours == before.glyph.contours
        &&& self.glyph.guidelines.objects() == objects
        &&& self.glyph.guidelines.numbers() == numbers
    }

    /// `self` is `before` with another table of points.
    pub open spec fn has_places(
        self,
        before: GlyphState,
        places: Map<GlyphPointIndex, Point>,
    ) -> bool {
        &&& self.same_session(before)
        &&& self.glyph == before.glyph
        &&& self.kd_tree@ == places
    }

    /// `self` is `before` with the points moved, in the glyph and in the table.
    pub open spec fn has_moved(
        self,
        before: GlyphState,
        moved: Seq<(GlyphPointIndex, Point)>,
    ) -> bool {
        &&& self.same_session(before)
        &&& self.glyph.is_moved(before.glyph, insert_all(Map::empty(), moved))
        &&& self.kd_tree@ == insert_all(before.kd_tree@, moved)
    }

    /// `self` is `before` with the points moved, and with every contour as it was
    /// that none of `idxs` belongs to.
    pub open spec fn has_transformed(
        self,
        before: GlyphState,
        idxs: Seq<GlyphPointIndex>,
        moved: Seq<(GlyphPointIndex, Point)>,
    ) -> bool {
        &&& self.has_moved(before, moved)
        &&& forall|c: usize|
            !contours_of(idxs).contains(c) ==> #[trigger] keeps_contour(self, before, c)
    }

    /// Starts a session on `glyph`, which is a copy of the one that is kept under
    /// the number `reference`, with every point of it in the table and nothing
    /// selected.
    pub fn new(glyph: Glyph, reference: u64, panning_tool: usize) -> (state: GlyphState)
        requires
            glyph.guidelines.wf(),
        ensures
            state.wf(),
            state.glyph == glyph,
            state.reference == reference,
            state.kd_tree@ == insert_all(Map::empty(), glyph.entries()),
            state.selection.selected() == Seq::<GlyphPointIndex>::empty(),
            state.selection.marked() == Set::<u128>::empty(),
            tools_of(state.tools) == Map::<usize, u64>::empty(),
            state.active_tool == INVALID_TYPE,
            state.panning_tool == panning_tool,
    {
        let mut state = GlyphState {
            glyph,
            reference,
            tools: no_tools(),
            active_tool: INVALID_TYPE,
            panning_tool,
            selection: Selection::new(),
            kd_tree: PointTable::new(),
        };
        let mut contour_index: usize = 0;
        while contour_index < state.glyph.contours.len()
            invariant
                contour_index <= state.glyph.contours@.len(),
                state.wf(),
                state.glyph == glyph,
                state.reference == reference,
                state.kd_tree@ == insert_all(
                    Map::empty(),
                    glyph.entries_below(contour_index as nat),
                ),
                state.selection.selected() == Seq::<GlyphPointIndex>::empty(),
                state.selection.marked() == Set::<u128>::empty(),
                tools_of(state.tools) == Map::<usize, u64>::empty(),
                state.active_tool == INVALID_TYPE,
                state.panning_tool == panning_tool,
            decreases state.glyph.contours@.len() - contour_index,
        {
            let entries = state.glyph.contours[contour_index].indexed_points(contour_index);
            state.kd_tree.add_all(&entries);
            proof {
                lemma_insert_all_add(
                    Map::empty(),
                    glyph.entries_below(contour_index as nat),
                    entries@,
                );
            }
            contour_index += 1;
        }
        state
    }

    /// The change that `contour` is added: redone, its points are in the table;
    /// undone, they are not.
    pub fn add_contour(&self, contour: &Contour, contour_index: usize) -> (action: Action)
        ensures
            action.stamp.property == Subject::Contour,
            action.stamp.id@ == item_id(contour_index),
            !action.compress,
            action.change == (Change::AddContour { contour: contour.id, contour_index }),
    {
        Action {
            stamp: item_stamp(Subject::Contour, contour_index),
            compress: false,
            change: Change::AddContour { contour: contour.id, contour_index },
        }
    }

    /// Puts the points of the contour into the table. The result says whether
    /// the view is to be drawn again.
    pub fn redo_add_contour(&mut self, contour: &Contour, contour_index: usize) -> (redraw: bool)
        requires
            old(self).wf(),
        ensures
            final(self).wf(),
            final(self).has_places(
                *old(self),
                insert_all(old(self).kd_tree@, contour.entries(contour_index)),
            ),
            !redraw,
    {
        let entries = contour.indexed_points(contour_index);
        self.kd_tree.add_all(&entries);
        false
    }

    /// Takes the points of the contour out of the table. The result says whether
    /// the view is to be drawn again.
    pub fn undo_add_contour(&mut self, contour: &Contour, contour_index: usize) -> (redraw: bool)
        requires
            old(self).wf(),
        ensures
            final(self).wf(),
            final(self).has_places(
                *old(self),
                old(self).kd_tree@.remove_keys(indices(contour.entries(contour_index))),
            ),
            !redraw,
    {
        let entries = contour.indexed_points(contour_index);
        self.kd_tree.remove_all(&entries);
        false
    }

    /// The change that a guideline comes up at `p`, at the given angle and under
    /// the given identifier. The guideline is made here, once, and is on the list
    /// when the change is done.
    pub fn new_guideline(&mut self, angle: Real, p: Point, identifier: u128) -> (action: Action)
        requires
            old(self).wf(),
        ensures
            final(self).wf(),
            final(self).has_guidelines(
                *old(self),
                old(self).glyph.guidelines.objects().push(
                    Guideline { identifier, x: p.x, y: p.y, angle },
                ),
                old(self).glyph.guidelines.numbers(),
            ),
            action.stamp.property == Subject::Guideline,
            action.stamp.id@ == Seq::<u8>::empty(),
            !action.compress,
            action.change == (Change::NewGuideline {
                number: old(self).glyph.guidelines.objects().len() as usize,
            }),
    {
        let number = self.glyph.guidelines.make(Guideline { identifier, x: p.x, y: p.y, angle });
        Action {
            stamp: EventStamp { property: Subject::Guideline, id: Vec::new() },
            compress: false,
            change: Change::NewGuideline { number },
        }
    }

    /// Puts the new guideline behind the others, as it last was: with all that
    /// was done to it while it was on the list.
    pub fn redo_new_guideline(&mut self, number: usize) -> (redraw: bool)
        requires
            old(self).wf(),
            number < old(self).glyph.guidelines.objects().len(),
        ensures
            final(self).wf(),
            final(self).has_guidelines(
                *old(self),
                old(self).glyph.guidelines.objects(),
                old(self).glyph.guidelines.numbers().push(number),
            ),
            redraw,
    {
        self.glyph.guidelines.list(number);
        true
    }

    /// Takes the last guideline off the list, if there is one.
    pub fn undo_new_guideline(&mut self) -> (redraw: bool)
        requires
            old(self).wf(),
        ensures
            final(self).wf(),
            final(self).has_guidelines(
                *old(self),
                old(self).glyph.guidelines.objects(),
                without_last(old(self).glyph.guidelines.numbers()),
            ),
            redraw,
    {
        self.glyph.guidelines.unlist_last();
        true
    }

    /// The change that the `idx`-th guideline goes. It keeps the guideline as it
    /// is now.
    pub fn delete_guideline(&self, idx: usize) -> (action: Action)
        requires
            self.wf(),
            idx < self.glyph.guidelines@.len(),
        ensures
            action.stamp.property == Subject::Guideline,
            action.stamp.id@ == item_id(idx),
            !action.compress,
            action.change == (Change::DeleteGuideline {
                idx,
                guideline: self.glyph.guidelines@[idx as int],
            }),
    {
        Action {
            stamp: item_stamp(Subject::Guideline, idx),
            compress: false,
            change: Change::DeleteGuideline { idx, guideline: self.glyph.guidelines.get(idx) },
        }
    }

    /// Takes the `idx`-th guideline off the list.
    pub fn redo_delete_guideline(&mut self, idx: usize) -> (redraw: bool)
        requires
            old(self).wf(),
            idx < old(self).glyph.guidelines@.len(),
        ensures
            final(self).wf(),
            final(self).has_guidelines(
                *old(self),
                old(self).glyph.guidelines.objects(),
                old(self).glyph.guidelines.numbers().remove(idx as int),
            ),
            redraw,
    {
        self.glyph.guidelines.unlist(idx);
        true
    }

    /// Puts a guideline like the deleted one behind the others. It is made anew:
    /// what is done to it from here on is not done to the deleted one.
    pub fn undo_delete_guideline(&mut self, guideline: Guideline) -> (redraw: bool)
        requires
            old(self).wf(),
        ensures
            final(self).wf(),
            final(self).has_guidelines(
                *old(self),
                old(self).glyph.guidelines.objects().push(guideline),
                old(self).glyph.guidelines.numbers().push(
                    old(self).glyph.guidelines.objects().len() as usize,
                ),
            ),
            redraw,
    {
        let number = self.glyph.guidelines.make(guideline);
        self.glyph.guidelines.list(number);
        true
    }

    /// Transforms the `idx`-th guideline by `m` and turns it by `dangle`:
    /// `placement` is where that puts it. Gives the change as it was made.
    pub fn transform_guideline(
        &mut self,
        idx: usize,
        m: Matrix,
        dangle: Real,
        placement: Placement,
    ) -> (done: (Action, bool))
        requires
            old(self).wf(),
            idx < old(self).glyph.guidelines@.len(),
        ensures
            final(self).wf(),
            final(self).has_guidelines(
                *old(self),
                old(self).glyph.guidelines.placed(idx as int, placement),
                old(self).glyph.guidelines.numbers(),
            ),
            done.0.stamp.property == Subject::Guideline,
            done.0.stamp.id@ == item_id(idx),
            done.0.compress,
            done.0.change == (Change::TransformGuideline { idx, m, dangle }),
            is_redone(
                *final(self),
                *old(self),
                done.0.change,
                Outside::Placement(Some(placement)),
            ),
            done.1,
    {
        let action = Action {
            stamp: item_stamp(Subject::Guideline, idx),
            compress: true,
            change: Change::TransformGuideline { idx, m, dangle },
        };
        let redraw = self.redo_transform_guideline(idx, placement);
        (action, redraw)
    }

    /// Puts the `idx`-th guideline where a transformation takes it.
    pub fn redo_transform_guideline(&mut self, idx: usize, placement: Placement) -> (redraw: bool)
        requires
            old(self).wf(),
            idx < old(self).glyph.guidelines@.len(),
        ensures
            final(self).wf(),
            final(self).has_guidelines(
                *old(self),
                old(self).glyph.guidelines.placed(idx as int, placement),
                old(self).glyph.guidelines.numbers(),
            ),
            redraw,
    {
        self.glyph.guidelines.place(idx, placement);
        true
    }

    /// Puts the `idx`-th guideline where the inverse of a transformation takes
    /// it, and leaves everything as it is where there is no inverse.
    pub fn undo_transform_guideline(&mut self, idx: usize, placement: Option<Placement>) -> (redraw:
        bool)
        requires
            old(self).wf(),
            placement is Some ==> idx < old(self).glyph.guidelines@.len(),
        ensures
            final(self).wf(),
            placement is None ==> *final(self) == *old(self),
            placement matches Some(p) ==> final(self).has_guidelines(
                *old(self),
                old(self).glyph.guidelines.placed(idx as int, p),
                old(self).glyph.guidelines.numbers(),
            ),
            redraw == (placement is Some),
    {
        match placement {
            Some(placement) => self.redo_transform_guideline(idx, placement),
            None => false,
        }
    }

    /// Transforms the selected points by `m`: `moved` says what that moves, of the
    /// contours that they belong to, and where to. Gives the change as it was
    /// made.
    pub fn transform_selection(
        &mut self,
        m: Matrix,
        compress: bool,
        moved: &[(GlyphPointIndex, Point)],
    ) -> (done: (Action, bool))
        requires
            old(self).wf(),
            in_glyph(old(self).glyph, old(self).selection.selected()),
            within(moved@, old(self).selection.selected()),
        ensures
            final(self).wf(),
            final(self).has_transformed(*old(self), old(self).selection.selected(), moved@),
            done.0.stamp.property == Subject::Point,
            done.0.stamp.id@ == points_id(old(self).selection.selected()),
            done.0.compress == compress,
            done.0.change matches Change::TransformPoints { idxs, m: by } && idxs@
                == old(self).selection.selected() && by == m,
            is_redone(*final(self), *old(self), done.0.change, Outside::Moves(Some(moved))),
            done.1,
    {
        let mut action = self.transform_points(self.selection.points(), m);
        action.compress = compress;
        self.move_points(moved);
        proof {
            lemma_has_transformed(*old(self), *self, old(self).selection.selected(), moved@);
        }
        (action, true)
    }

    /// The change that the points `idxs` are transformed by `m`.
    pub fn transform_points(&self, idxs: &[GlyphPointIndex], m: Matrix) -> (action: Action)
        ensures
            action.stamp.property == Subject::Point,
            action.stamp.id@ == points_id(idxs@),
            !action.compress,
            action.change matches Change::TransformPoints { idxs: points, m: by } && points@
                == idxs@ && by == m,
    {
        let mut points: Vec<GlyphPointIndex> = Vec::new();
        let mut i: usize = 0;
        while i < idxs.len()
            invariant
                i <= idxs@.len(),
                points@ == idxs@.take(i as int),
            decreases idxs@.len() - i,
        {
            assert(idxs@.take(i + 1) =~= idxs@.take(i as int).push(idxs@[i as int]));
            points.push(idxs[i]);
            i += 1;
        }
        assert(idxs@.take(i as int) =~= idxs@);
        Action {
            stamp: points_stamp(idxs),
            compress: false,
            change: Change::TransformPoints { idxs: points, m },
        }
    }

    /// Moves points, in the glyph and in the table.
    fn move_points(&mut self, moved: &[(GlyphPointIndex, Point)])
        requires
            old(self).wf(),
        ensures
            final(self).wf(),
            final(self).has_moved(*old(self), moved@),
    {
        self.glyph.move_points(moved);
        self.kd_tree.add_all(moved);
    }

    /// Moves points to where a transformation of `idxs` takes them: `moved` says what
    /// it moves, of the contours that `idxs` belong to, and where to.
    pub fn redo_transform_points(
        &mut self,
        idxs: &[GlyphPointIndex],
        moved: &[(GlyphPointIndex, Point)],
    ) -> (redraw: bool)
        requires
            old(self).wf(),
            in_glyph(old(self).glyph, idxs@),
            within(moved@, idxs@),
        ensures
            final(self).wf(),
            final(self).has_transformed(*old(self), idxs@, moved@),
            redraw,
    {
        self.move_points(moved);
        proof {
            lemma_has_transformed(*old(self), *self, idxs@, moved@);
        }
        true
    }

    /// Moves points to where the inverse of a transformation of `idxs` takes them,
    /// and leaves everything as it is where there is no inverse.
    pub fn undo_transform_points(
        &mut self,
        idxs: &[GlyphPointIndex],
        moved: Option<&[(GlyphPointIndex, Point)]>,
    ) -> (redraw: bool)
        requires
            old(self).wf(),
            moved matches Some(to) ==> in_glyph(old(self).glyph, idxs@) && within(to@, idxs@),
        ensures
            final(self).wf(),
            moved is None ==> *final(self) == *old(self),
            moved matches Some(to) ==> final(self).has_transformed(*old(self), idxs@, to@),
            redraw == (moved is Some),
    {
        match moved {
            Some(moved) => self.redo_transform_points(idxs, moved),
            None => false,
        }
    }

    /// The points that a transformation of `idxs` takes hold of, with their
    /// positions: those of the glyph's points that `idxs` names, contour by
    /// contour.
    pub fn points_to_transform(&self, idxs: &[GlyphPointIndex]) -> (points: Vec<
        (GlyphPointIndex, Point),
    >)
        requires
            in_glyph(self.glyph, idxs@),
        ensures
            points@ == chosen_in(self.glyph, contours_of(idxs@), idxs@),
            forall|entry: (GlyphPointIndex, Point)| #[trigger]
                points@.contains(entry) <==> idxs@.contains(entry.0)
                    && self.glyph.entries().contains(entry),
    {
        let contours = contours_to_transform(idxs);
        let mut points: Vec<(GlyphPointIndex, Point)> = Vec::new();
        let mut i: usize = 0;
        assert(contours@.take(0) =~= Seq::empty());
        while i < contours.len()
            invariant
                i <= contours@.len(),
                contours@ == contours_of(idxs@),
                in_glyph(self.glyph, idxs@),
                points@ == chosen_in(self.glyph, contours@.take(i as int), idxs@),
            decreases contours@.len() - i,
        {
            let contour_index = contours[i];
            proof {
                assert(contours@.take(i + 1).drop_last() =~= contours@.take(i as int));
                lemma_contours_of(idxs@);
                assert(contours_of(idxs@).contains(contour_index));
            }
            let mut chosen = self.glyph.contours[contour_index].chosen_points(contour_index, idxs);
            points.append(&mut chosen);
            i += 1;
        }
        assert(contours@.take(i as int) =~= contours@);
        assert forall|entry: (GlyphPointIndex, Point)| #[trigger]
            points@.contains(entry) <==> idxs@.contains(entry.0) && self.glyph.entries().contains(
                entry,
            ) by {
            law_points_to_transform(self.glyph, idxs@, entry);
        }
        points
    }

    /// Brings `selection` to what is selected: it replaces it, comes on top of it
    /// or is taken out of it.
    pub fn set_selection(&mut self, selection: &[GlyphPointIndex], modifier: SelectionModifier)
        requires
            old(self).wf(),
        ensures
            final(self).wf(),
            *final(self) == (GlyphState { selection: final(self).selection, ..*old(self) }),
            final(self).selection.selected() == selection_after(
                old(self).selection.selected(),
                selection@,
                modifier,
            ),
            final(self).selection.marked() == marks_after(
                old(self).selection.selected(),
                old(self).selection.marked(),
                selection@,
                modifier,
            ),
            modifier is Replace ==> final(self).selection.selected() == selection@,
            modifier is Replace ==> forall|uuid: u128| #[trigger]
                final(self).selection.marked().contains(uuid) <==> exists|i: int|
                    0 <= i < selection@.len() && (#[trigger] selection@[i]).uuid == uuid,
            modifier is Add ==> final(self).selection.selected().len()
                == old(self).selection.selected().len() + selection@.len(),
            modifier is Add ==> forall|i: int|
                0 <= i < old(self).selection.selected().len()
                    ==> (#[trigger] final(self).selection.selected()[i])
                    == old(self).selection.selected()[i],
            modifier is Add ==> forall|i: int|
                0 <= i < selection@.len()
                    ==> final(self).selection.selected()[old(self).selection.selected().len() + i] == (#[trigger] selection@[i]),
            modifier is Add ==> forall|uuid: u128| #[trigger]
                final(self).selection.marked().contains(uuid)
                    <==> old(self).selection.marked().contains(uuid) || (exists|i: int|
                    0 <= i < old(self).selection.selected().len()
                        && (#[trigger] old(self).selection.selected()[i]).uuid == uuid) || (exists|
                    i: int,
                |
                    0 <= i < selection@.len() && (#[trigger] selection@[i]).uuid == uuid),
            modifier is Remove ==> forall|index: GlyphPointIndex| #[trigger]
                final(self).selection.selected().contains(index)
                    <==> old(self).selection.selected().contains(index)
                    && !selection@.contains(index),
            modifier is Remove ==> forall|uuid: u128| #[trigger]
                final(self).selection.marked().contains(uuid)
                    <==> old(self).selection.marked().contains(uuid) && forall|i: int|
                    0 <= i < selection@.len() ==> (#[trigger] selection@[i]).uuid != uuid,
    {
        self.selection.set(selection, modifier);
    }

    /// The identifiers that count as selected.
    pub fn get_selection(&self) -> (set: &HashSet<u128>)
        ensures
            set@ == self.selection.marked(),
    {
        self.selection.uuids()
    }
}

/// Lists the contours that a transformation of the points goes through: those
/// that they belong to, each once, in the order in which they first come up.
pub fn contours_to_transform(idxs: &[GlyphPointIndex]) -> (contours: Vec<usize>)
    ensures
        contours@ == contours_of(idxs@),
        contours@.no_duplicates(),
        forall|c: usize| #[trigger]
            contours@.contains(c) <==> exists|i: int|
                0 <= i < idxs@.len() && (#[trigger] idxs@[i]).contour_index == c,
{
    let mut contours: Vec<usize> = Vec::new();
    let mut i: usize = 0;
    assert(idxs@.take(0) =~= Seq::empty());
    while i < idxs.len()
        invariant
            i <= idxs@.len(),
            contours@ == contours_of(idxs@.take(i as int)),
        decreases idxs@.len() - i,
    {
        assert(idxs@.take(i + 1).drop_last() =~= idxs@.take(i as int));
        let contour_index = idxs[i].contour_index;
        let mut found = false;
        let mut j: usize = 0;
        while j < contours.len()
            invariant
                j <= contours@.len(),
                found == contours@.take(j as int).contains(contour_index),
            decreases contours@.len() - j,
        {
            let ghost some = contours@.take(j as int);
            let ghost more = contours@.take(j + 1);
            proof {
                assert(more =~= some.push(contours@[j as int]));
                if some.contains(contour_index) {
                    assert(more[some.index_of(contour_index)] == contour_index);
                }
                assert(more[j as int] == contours@[j as int]);
            }
            if contours[j] == contour_index {
                found = true;
            }
            j += 1;
        }
        assert(contours@.take(j as int) =~= contours@);
        if !found {
            contours.push(contour_index);
        }
        i += 1;
    }
    assert(idxs@.take(i as int) =~= idxs@);
    proof {
        lemma_contours_of(idxs@);
    }
    contours
}

/// The contours of a list of points: those that a point belongs to, each once.
pub proof fn lemma_contours_of(idxs: Seq<GlyphPointIndex>)
    ensures
        contours_of(idxs).no_duplicates(),
        forall|c: usize| #[trigger]
            contours_of(idxs).contains(c) <==> exists|i: int|
                0 <= i < idxs.len() && (#[trigger] idxs[i]).contour_index == c,
    decreases idxs.len(),
{
    if idxs.len() > 0 {
        let rest = idxs.drop_last();
        let before = contours_of(rest);
        let last = idxs.last().contour_index;
        lemma_contours_of(rest);
        assert forall|c: usize| #[trigger]
            contours_of(idxs).contains(c) <==> exists|i: int|
                0 <= i < idxs.len() && (#[trigger] idxs[i]).contour_index == c by {
            if contours_of(idxs).contains(c) {
                if before.contains(c) {
                    let i = choose|i: int|
                        0 <= i < rest.len() && (#[trigger] rest[i]).contour_index == c;
                    assert(idxs[i].contour_index == c);
                } else {
                    assert(idxs[idxs.len() - 1].contour_index == c);
                }
            }
            if exists|i: int| 0 <= i < idxs.len() && (#[trigger] idxs[i]).contour_index == c {
                let i = choose|i: int|
                    0 <= i < idxs.len() && (#[trigger] idxs[i]).contour_index == c;
                if i < rest.len() {
                    assert(rest[i].contour_index == c);
                    assert(before.contains(c));
                    if !before.contains(last) {
                        assert(contours_of(idxs)[before.index_of(c)] == c);
                    }
                } else if !before.contains(last) {
                    assert(contours_of(idxs)[before.len() as int] == c);
                }
            }
        }
    }
}

/// Where only points of named contours are moved, a contour that is not named
/// stays as it is.
proof fn lemma_keeps_contour(
    before: GlyphState,
    after: GlyphState,
    idxs: Seq<GlyphPointIndex>,
    moved: Seq<(GlyphPointIndex, Point)>,
    c: usize,
)
    requires
        after.has_moved(before, moved),
        within(moved, idxs),
        !contours_of(idxs).contains(c),
    ensures
        keeps_contour(after, before, c),
{
    let places = insert_all(Map::empty(), moved);
    assert forall|index: GlyphPointIndex| index.contour_index == c implies !(
    #[trigger] mentions(moved, index)) by {
        if mentions(moved, index) {
            let i = choose|i: int| 0 <= i < moved.len() && #[trigger] moved[i].0 == index;
            assert(contours_of(idxs).contains(moved[i].0.contour_index));
        }
    }
    assert forall|index: GlyphPointIndex| index.contour_index == c implies #[trigger] same_place(
        after.kd_tree@,
        before.kd_tree@,
        index,
    ) by {
        assert(!mentions(moved, index));
        lemma_insert_all_at(before.kd_tree@, Map::empty(), moved, index);
    }
    if c < before.glyph.contours@.len() {
        let old_contour = before.glyph.contours@[c as int];
        let new_contour = after.glyph.contours@[c as int];
        assert(new_contour.is_moved(old_contour, c, places));
        assert forall|k: int| 0 <= k < old_contour.curves@.len() implies (
        #[trigger] new_contour.curves@[k]).points@ == old_contour.curves@[k].points@ by {
            assert(new_contour.curves@[k].is_moved(
                old_contour.curves@[k],
                c,
                k as usize,
                places,
            ));
            assert forall|j: int| 0 <= j < old_contour.curves@[k].points@.len() implies (
            #[trigger] new_contour.curves@[k].points@[j]) == old_contour.curves@[k].points@[j] by {
                let index = old_contour.curves@[k].points@[j].index_in(c, k as usize);
                assert(!mentions(moved, index));
                lemma_insert_all_at(Map::empty(), Map::empty(), moved, index);
            }
            assert(new_contour.curves@[k].points@ =~= old_contour.curves@[k].points@);
        }
        lemma_same_entries(new_contour, old_contour, c, old_contour.curves@.len());
    }
}

/// Where only points of named contours are moved, every other contour stays as it
/// is.
pub proof fn lemma_has_transformed(
    before: GlyphState,
    after: GlyphState,
    idxs: Seq<GlyphPointIndex>,
    moved: Seq<(GlyphPointIndex, Point)>,
)
    requires
        after.has_moved(before, moved),
        within(moved, idxs),
    ensures
        after.has_transformed(before, idxs, moved),
{
    assert forall|c: usize| !contours_of(idxs).contains(c) implies #[trigger] keeps_contour(
        after,
        before,
        c,
    ) by {
        lemma_keeps_contour(before, after, idxs, moved, c);
    }
}

/// Contours with the same points have the same entries.
proof fn lemma_same_entries(one: Contour, other: Contour, contour_index: usize, n: nat)
    requires
        n <= one.curves@.len(),
        n <= other.curves@.len(),
        forall|k: int|
            0 <= k < n ==> (#[trigger] one.curves@[k]).points@ == other.curves@[k].points@,
    ensures
        one.entries_below(contour_index, n) == other.entries_below(contour_index, n),
    decreases n,
{
    if n > 0 {
        lemma_same_entries(one, other, contour_index, (n - 1) as nat);
        assert(one.curves@[n - 1].points@ == other.curves@[n - 1].points@);
        assert(one.curves@[n - 1].entries(contour_index, (n - 1) as usize)
            =~= other.curves@[n - 1].entries(contour_index, (n - 1) as usize));
    }
}

} // verus!
