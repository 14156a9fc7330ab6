use glyph_edit::action::{Action, Change, Subject};
use glyph_edit::glyphs::{
    names, Contour, Curve, CurvePoint, Glyph, GlyphPointIndex, Matrix, Point, Real,
};
use glyph_edit::guidelines::{Guideline, Guidelines, Placement};
use glyph_edit::history::Outside;
use glyph_edit::range_query::PointTable;
use glyph_edit::selection::SelectionModifier;
use glyph_edit::state::{contours_to_transform, GlyphState};

const PANNING: usize = 77;
const REFERENCE: u64 = 5;

fn num(value: f64) -> Real {
    Real { bits: value.to_bits() }
}

fn point(x: f64, y: f64) -> Point {
    Point { x: num(x), y: num(y) }
}

fn at(uuid: u128, x: f64, y: f64) -> CurvePoint {
    CurvePoint { uuid, position: point(x, y) }
}

fn index(contour_index: usize, curve_index: usize, uuid: u128) -> GlyphPointIndex {
    GlyphPointIndex { contour_index, curve_index, uuid }
}

fn guideline(identifier: u128, x: f64, y: f64, angle: f64) -> Guideline {
    Guideline { identifier, x: num(x), y: num(y), angle: num(angle) }
}

/// Two contours: the first with curves of two points and one, the second with
/// one curve of two points.
fn glyph() -> Glyph {
    Glyph {
        name_markup: "A".to_string(),
        width: Some(num(600.0)),
        contours: vec![
            Contour {
                id: 100,
                curves: vec![
                    Curve { points: vec![at(1, 0.0, 0.0), at(2, 10.0, 0.0)] },
                    Curve { points: vec![at(3, 10.0, 10.0)] },
                ],
            },
            Contour {
                id: 101,
                curves: vec![Curve { points: vec![at(4, 50.0, 50.0), at(5, 60.0, 50.0)] }],
            },
        ],
        guidelines: Guidelines::new(vec![]),
    }
}

fn shift() -> Matrix {
    Matrix {
        xx: num(1.0),
        yx: num(0.0),
        xy: num(0.0),
        yy: num(1.0),
        x0: num(5.0),
        y0: num(0.0),
    }
}

fn start() -> GlyphState {
    GlyphState::new(glyph(), REFERENCE, PANNING)
}

#[test]
fn a_new_session_holds_every_point() {
    let state = start();
    assert_eq!(state.kd_tree.get(index(0, 0, 1)), Some(point(0.0, 0.0)));
    assert_eq!(state.kd_tree.get(index(0, 0, 2)), Some(point(10.0, 0.0)));
    assert_eq!(state.kd_tree.get(index(0, 1, 3)), Some(point(10.0, 10.0)));
    assert_eq!(state.kd_tree.get(index(1, 0, 4)), Some(point(50.0, 50.0)));
    assert_eq!(state.kd_tree.get(index(1, 0, 5)), Some(point(60.0, 50.0)));
    assert_eq!(state.kd_tree.get(index(0, 1, 1)), None);
    assert_eq!(state.kd_tree.get(index(1, 0, 1)), None);
    assert_eq!(state.active_tool, 0);
    assert_eq!(state.panning_tool, PANNING);
    assert_eq!(state.reference, REFERENCE);
    assert!(state.tools.is_empty());
    assert!(state.get_selection().is_empty());
    assert!(state.selection.points().is_empty());
}

#[test]
fn a_session_on_an_empty_glyph() {
    let empty = Glyph {
        name_markup: String::new(),
        width: None,
        contours: vec![],
        guidelines: Guidelines::new(vec![]),
    };
    let state = GlyphState::new(empty, 2, 1);
    assert_eq!(state.kd_tree.get(index(0, 0, 1)), None);
    assert_eq!(state.reference, 2);
}

#[test]
fn of_points_with_the_same_index_the_last_counts() {
    let mut doubled = glyph();
    doubled.contours[0].curves[0].points[1].uuid = 1;
    let state = GlyphState::new(doubled, REFERENCE, PANNING);
    assert_eq!(state.kd_tree.get(index(0, 0, 1)), Some(point(10.0, 0.0)));
}

#[test]
fn table_of_points() {
    let mut table = PointTable::new();
    assert_eq!(table.get(index(0, 0, 1)), None);
    table.add(index(0, 0, 1), point(1.0, 2.0));
    table.add(index(0, 0, 2), point(3.0, 4.0));
    table.add(index(0, 0, 1), point(5.0, 6.0));
    assert_eq!(table.get(index(0, 0, 1)), Some(point(5.0, 6.0)));
    assert_eq!(table.get(index(0, 0, 2)), Some(point(3.0, 4.0)));
    table.remove(index(0, 0, 3));
    table.remove(index(0, 0, 1));
    assert_eq!(table.get(index(0, 0, 1)), None);
    assert_eq!(table.get(index(0, 0, 2)), Some(point(3.0, 4.0)));
    table.add_all(&[
        (index(1, 0, 1), point(1.0, 1.0)),
        (index(1, 0, 1), point(2.0, 2.0)),
        (index(0, 0, 2), point(9.0, 9.0)),
    ]);
    assert_eq!(table.get(index(1, 0, 1)), Some(point(2.0, 2.0)));
    assert_eq!(table.get(index(0, 0, 2)), Some(point(9.0, 9.0)));
    table.remove_all(&[(index(1, 0, 1), point(0.0, 0.0)), (index(7, 7, 7), point(0.0, 0.0))]);
    assert_eq!(table.get(index(1, 0, 1)), None);
    assert_eq!(table.get(index(0, 0, 2)), Some(point(9.0, 9.0)));
}

#[test]
fn an_index_as_bytes() {
    let bytes = index(0x0102, 3, 0x0102_0304_0506_0708_090a_0b0c_0d0e_0f10).as_bytes();
    let mut expected: Vec<u8> = vec![2, 1, 0, 0, 0, 0, 0, 0, 3, 0, 0, 0, 0, 0, 0, 0];
    for byte in 1..=16u8 {
        expected.push(byte);
    }
    assert_eq!(bytes, expected);
}

#[test]
fn points_of_a_contour_with_their_indices() {
    let contour = &glyph().contours[0];
    assert_eq!(
        contour.indexed_points(4),
        vec![
            (index(4, 0, 1), point(0.0, 0.0)),
            (index(4, 0, 2), point(10.0, 0.0)),
            (index(4, 1, 3), point(10.0, 10.0)),
        ]
    );
    assert_eq!(
        contour.chosen_points(4, &[index(4, 1, 3), index(4, 0, 1), index(0, 0, 2)]),
        vec![(index(4, 0, 1), point(0.0, 0.0)), (index(4, 1, 3), point(10.0, 10.0))]
    );
    assert!(names(&[index(1, 2, 3)], index(1, 2, 3)));
    assert!(!names(&[index(1, 2, 3)], index(1, 2, 4)));
    assert!(!names(&[], index(1, 2, 3)));
    assert_eq!(at(9, 0.0, 0.0).glyph_index(1, 2), index(1, 2, 9));
}

#[test]
fn adding_a_contour() {
    let mut state = start();
    let contour = Contour { id: 9, curves: vec![Curve { points: vec![at(8, 1.0, 1.0)] }] };
    let action = state.add_contour(&contour, 2);
    assert_eq!(action.stamp.property, Subject::Contour);
    assert_eq!(action.stamp.id, vec![2]);
    assert!(!action.compress);
    assert!(matches!(action.change, Change::AddContour { contour: 9, contour_index: 2 }));

    assert!(!state.redo_add_contour(&contour, 2));
    assert_eq!(state.kd_tree.get(index(2, 0, 8)), Some(point(1.0, 1.0)));
    assert_eq!(state.kd_tree.get(index(0, 0, 1)), Some(point(0.0, 0.0)));
    assert!(!state.undo_add_contour(&contour, 2));
    assert_eq!(state.kd_tree.get(index(2, 0, 8)), None);
    assert_eq!(state.kd_tree.get(index(0, 0, 1)), Some(point(0.0, 0.0)));
    state.redo_add_contour(&contour, 2);
    assert_eq!(state.kd_tree.get(index(2, 0, 8)), Some(point(1.0, 1.0)));
}

#[test]
fn a_stamp_holds_one_byte_of_a_position() {
    let state = start();
    let contour = &glyph().contours[0];
    assert_eq!(state.add_contour(contour, 255).stamp.id, vec![255]);
    assert_eq!(state.add_contour(contour, 256).stamp.id, vec![0]);
    assert_eq!(state.add_contour(contour, 0x1234).stamp.id, vec![0x34]);
}

#[test]
fn a_new_guideline_and_its_undoing() {
    let mut state = start();
    let action = state.new_guideline(num(45.0), point(3.0, 4.0), 99);
    assert_eq!(action.stamp.property, Subject::Guideline);
    assert!(action.stamp.id.is_empty());
    assert!(!action.compress);
    let number = new_guideline_number(&action);
    assert_eq!(state.glyph.guidelines.len(), 0);
    assert!(state.redo_new_guideline(number));
    assert_eq!(state.glyph.guidelines.to_vec(), vec![guideline(99, 3.0, 4.0, 45.0)]);
    assert_eq!(state.glyph.guidelines.get(0), guideline(99, 3.0, 4.0, 45.0));
    assert!(state.undo_new_guideline());
    assert!(state.glyph.guidelines.to_vec().is_empty());
    assert!(state.undo_new_guideline());
    assert!(state.glyph.guidelines.to_vec().is_empty());
}

fn new_guideline_number(action: &Action) -> usize {
    match action.change {
        Change::NewGuideline { number } => number,
        _ => panic!("not a new guideline"),
    }
}

#[test]
fn a_new_guideline_is_redone_as_it_last_was() {
    let mut state = start();
    let first = state.new_guideline(num(0.0), point(1.0, 2.0), 1);
    let second = state.new_guideline(num(45.0), point(3.0, 4.0), 2);
    let (first, second) = (new_guideline_number(&first), new_guideline_number(&second));
    assert_ne!(first, second);
    state.redo_new_guideline(first);
    state.redo_new_guideline(second);
    let placement = Placement { x: num(8.0), y: num(9.0), angle: num(60.0) };
    state.transform_guideline(1, shift(), num(15.0), placement);
    state.undo_new_guideline();
    assert_eq!(state.glyph.guidelines.to_vec(), vec![guideline(1, 1.0, 2.0, 0.0)]);
    state.redo_new_guideline(second);
    let (a, b) = (guideline(1, 1.0, 2.0, 0.0), guideline(2, 8.0, 9.0, 60.0));
    assert_eq!(state.glyph.guidelines.to_vec(), vec![a, b]);
}

#[test]
fn a_restored_guideline_is_another_one() {
    let mut state = start();
    let action = state.new_guideline(num(0.0), point(1.0, 2.0), 1);
    let number = new_guideline_number(&action);
    state.redo_new_guideline(number);
    let made = guideline(1, 1.0, 2.0, 0.0);
    state.redo_delete_guideline(0);
    state.undo_delete_guideline(made);
    let placement = Placement { x: num(8.0), y: num(9.0), angle: num(60.0) };
    state.redo_transform_guideline(0, placement);
    assert_eq!(state.glyph.guidelines.to_vec(), vec![guideline(1, 8.0, 9.0, 60.0)]);
    state.undo_new_guideline();
    state.redo_new_guideline(number);
    assert_eq!(state.glyph.guidelines.to_vec(), vec![made]);
}

#[test]
fn a_guideline_that_is_listed_twice_moves_as_one() {
    let mut state = start();
    let action = state.new_guideline(num(0.0), point(1.0, 2.0), 1);
    let number = new_guideline_number(&action);
    state.redo_new_guideline(number);
    state.redo_new_guideline(number);
    let placement = Placement { x: num(8.0), y: num(9.0), angle: num(60.0) };
    state.redo_transform_guideline(0, placement);
    let moved = guideline(1, 8.0, 9.0, 60.0);
    assert_eq!(state.glyph.guidelines.to_vec(), vec![moved, moved]);
}

#[test]
fn a_deleted_guideline_comes_back_as_the_last() {
    let mut state = start();
    let (a, b, c) =
        (guideline(1, 1.0, 0.0, 0.0), guideline(2, 2.0, 0.0, 0.0), guideline(3, 3.0, 0.0, 0.0));
    state.glyph.guidelines = Guidelines::new(vec![a, b, c]);

    let action = state.delete_guideline(1);
    assert_eq!(action.stamp.property, Subject::Guideline);
    assert_eq!(action.stamp.id, vec![1]);
    assert!(!action.compress);
    let (idx, kept) = match action.change {
        Change::DeleteGuideline { idx, guideline } => (idx, guideline),
        _ => panic!("not a deletion"),
    };
    assert_eq!((idx, kept), (1, b));
    assert!(state.redo_delete_guideline(idx));
    assert_eq!(state.glyph.guidelines.to_vec(), vec![a, c]);
    assert!(state.undo_delete_guideline(kept));
    assert_eq!(state.glyph.guidelines.to_vec(), vec![a, c, b]);

    state.redo_delete_guideline(2);
    state.undo_delete_guideline(b);
    assert_eq!(state.glyph.guidelines.to_vec(), vec![a, c, b]);
    state.redo_delete_guideline(1);
    assert_eq!(state.glyph.guidelines.to_vec(), vec![a, b]);
}

#[test]
fn transforming_a_guideline() {
    let mut state = start();
    let (a, b) = (guideline(1, 1.0, 2.0, 30.0), guideline(2, 3.0, 4.0, 60.0));
    state.glyph.guidelines = Guidelines::new(vec![a, b]);
    let placement = Placement { x: num(8.0), y: num(4.0), angle: num(75.0) };
    let (action, redraw) = state.transform_guideline(1, shift(), num(15.0), placement);
    assert!(redraw);
    assert_eq!(action.stamp.property, Subject::Guideline);
    assert_eq!(action.stamp.id, vec![1]);
    assert!(action.compress);
    match action.change {
        Change::TransformGuideline { idx, m, dangle } => {
            assert_eq!(idx, 1);
            assert_eq!(m, shift());
            assert_eq!(dangle, num(15.0));
        }
        _ => panic!("not a transformation"),
    }
    assert_eq!(state.glyph.guidelines.to_vec(), vec![a, guideline(2, 8.0, 4.0, 75.0)]);

    assert!(!state.undo_transform_guideline(1, None));
    assert_eq!(state.glyph.guidelines.to_vec(), vec![a, guideline(2, 8.0, 4.0, 75.0)]);
    let back = Placement { x: b.x, y: b.y, angle: b.angle };
    assert!(state.undo_transform_guideline(1, Some(back)));
    assert_eq!(state.glyph.guidelines.to_vec(), vec![a, b]);
    assert!(state.redo_transform_guideline(1, placement));
    assert_eq!(state.glyph.guidelines.to_vec(), vec![a, guideline(2, 8.0, 4.0, 75.0)]);
}

fn moved_right(points: &[(GlyphPointIndex, Point)], by: f64) -> Vec<(GlyphPointIndex, Point)> {
    points
        .iter()
        .map(|(index, p)| {
            (*index, Point { x: num(f64::from_bits(p.x.bits) + by), y: p.y })
        })
        .collect()
}

#[test]
fn transforming_points() {
    let mut state = start();
    let idxs = [index(1, 0, 5), index(0, 0, 2), index(1, 0, 5), index(0, 1, 9)];
    let action = state.transform_points(&idxs, shift());
    assert_eq!(action.stamp.property, Subject::Point);
    assert_eq!(action.stamp.id.len(), 128);
    assert!(!action.compress);
    match &action.change {
        Change::TransformPoints { idxs: points, m } => {
            assert_eq!(points[..], idxs);
            assert_eq!(*m, shift());
        }
        _ => panic!("not a transformation"),
    }

    let points = state.points_to_transform(&idxs);
    assert_eq!(
        points,
        vec![(index(1, 0, 5), point(60.0, 50.0)), (index(0, 0, 2), point(10.0, 0.0))]
    );
    assert!(state.redo_transform_points(&idxs, &moved_right(&points, 5.0)));
    assert_eq!(state.kd_tree.get(index(1, 0, 5)), Some(point(65.0, 50.0)));
    assert_eq!(state.kd_tree.get(index(0, 0, 2)), Some(point(15.0, 0.0)));
    assert_eq!(state.kd_tree.get(index(0, 0, 1)), Some(point(0.0, 0.0)));
    assert_eq!(state.glyph.contours[1].curves[0].points[1], at(5, 65.0, 50.0));
    assert_eq!(state.glyph.contours[0].curves[0].points[1], at(2, 15.0, 0.0));
    assert_eq!(state.glyph.contours[0].curves[0].points[0], at(1, 0.0, 0.0));

    assert!(!state.undo_transform_points(&idxs, None));
    assert_eq!(state.kd_tree.get(index(1, 0, 5)), Some(point(65.0, 50.0)));
    assert!(state.undo_transform_points(&idxs, Some(&points[..])));
    assert_eq!(state.kd_tree.get(index(1, 0, 5)), Some(point(60.0, 50.0)));
    assert_eq!(state.glyph.contours[1].curves[0].points[1], at(5, 60.0, 50.0));
    assert_eq!(state.glyph.contours[0].curves[0].points[1], at(2, 10.0, 0.0));
}

#[test]
fn stamps_of_points_follow_their_order() {
    let state = start();
    let (a, b) = (index(0, 0, 1), index(0, 0, 2));
    let id = |idxs: &[GlyphPointIndex]| -> Vec<u8> { state.transform_points(idxs, shift()).stamp.id };
    assert_eq!(id(&[a, b]), id(&[a, b]));
    assert_ne!(id(&[a, b]), id(&[b, a]));
    assert_ne!(id(&[a]), id(&[a, a]));
    assert_eq!(id(&[a, b]), [a.as_bytes(), b.as_bytes()].concat());
    assert!(id(&[]).is_empty());
}

#[test]
fn transforming_the_selection() {
    let mut state = start();
    state.set_selection(&[index(0, 0, 1), index(1, 0, 4)], SelectionModifier::Replace);
    let points = state.points_to_transform(state.selection.points());
    assert_eq!(points.len(), 2);
    let moved = moved_right(&points, 5.0);
    let done: (Action, bool) = state.transform_selection(shift(), true, &moved);
    assert!(done.1);
    assert!(done.0.compress);
    assert_eq!(done.0.stamp.property, Subject::Point);
    assert_eq!(done.0.stamp.id.len(), 64);
    assert_eq!(state.kd_tree.get(index(0, 0, 1)), Some(point(5.0, 0.0)));
    assert_eq!(state.kd_tree.get(index(1, 0, 4)), Some(point(55.0, 50.0)));
    assert_eq!(state.glyph.contours[1].curves[0].points[0], at(4, 55.0, 50.0));
    assert_eq!(state.selection.points().len(), 2);
    let again = state.transform_selection(shift(), false, &moved_right(&moved, 5.0));
    assert!(!again.0.compress);
    assert_eq!(state.kd_tree.get(index(0, 0, 1)), Some(point(10.0, 0.0)));
    assert_eq!(state.kd_tree.get(index(1, 0, 4)), Some(point(60.0, 50.0)));
    assert_eq!(state.kd_tree.get(index(1, 0, 5)), Some(point(60.0, 50.0)));
}

fn selected(state: &GlyphState) -> Vec<u128> {
    let mut uuids: Vec<u128> = state.get_selection().iter().copied().collect();
    uuids.sort();
    uuids
}

#[test]
fn replacing_the_selection() {
    let mut state = start();
    state.set_selection(&[index(0, 0, 1), index(0, 0, 2)], SelectionModifier::Replace);
    assert_eq!(selected(&state), vec![1, 2]);
    state.set_selection(&[index(0, 1, 3)], SelectionModifier::Replace);
    assert_eq!(selected(&state), vec![3]);
    assert_eq!(*state.selection.points(), vec![index(0, 1, 3)]);
    state.set_selection(&[], SelectionModifier::Replace);
    assert!(selected(&state).is_empty());
}

#[test]
fn adding_to_the_selection_and_taking_out_of_it() {
    let mut state = start();
    state.set_selection(&[index(0, 0, 1)], SelectionModifier::Add);
    state.set_selection(&[index(0, 0, 2), index(0, 0, 1)], SelectionModifier::Add);
    assert_eq!(selected(&state), vec![1, 2]);
    assert_eq!(*state.selection.points(), vec![index(0, 0, 1), index(0, 0, 2), index(0, 0, 1)]);
    state.set_selection(&[index(0, 0, 1)], SelectionModifier::Remove);
    assert_eq!(selected(&state), vec![2]);
    assert_eq!(*state.selection.points(), vec![index(0, 0, 2)]);
    state.set_selection(&[index(1, 0, 4)], SelectionModifier::Remove);
    assert_eq!(selected(&state), vec![2]);
    state.set_selection(&[index(1, 0, 4)], SelectionModifier::Add);
    state.set_selection(&[index(1, 0, 4)], SelectionModifier::Remove);
    assert_eq!(selected(&state), vec![2]);
    assert_eq!(*state.selection.points(), vec![index(0, 0, 2)]);
}

#[test]
fn an_identifier_goes_with_any_point_that_has_it() {
    let mut state = start();
    state.set_selection(&[index(0, 0, 1)], SelectionModifier::Replace);
    state.set_selection(&[index(9, 9, 1)], SelectionModifier::Remove);
    assert!(selected(&state).is_empty());
    assert_eq!(*state.selection.points(), vec![index(0, 0, 1)]);
    state.set_selection(&[], SelectionModifier::Add);
    assert_eq!(selected(&state), vec![1]);
}

#[test]
fn contours_are_gone_through_once() {
    let idxs = [index(3, 0, 1), index(1, 0, 2), index(3, 1, 3), index(0, 0, 4), index(1, 0, 2)];
    assert_eq!(contours_to_transform(&idxs), vec![3, 1, 0]);
    assert!(contours_to_transform(&[]).is_empty());
}

#[test]
fn changes_are_redone_and_undone() {
    let mut state = start();
    let contour = Contour { id: 9, curves: vec![Curve { points: vec![at(8, 1.0, 1.0)] }] };
    let added = state.add_contour(&contour, 2).change;
    assert!(!state.redo(&added, Outside::Contour(None)));
    assert_eq!(state.kd_tree.get(index(2, 0, 8)), None);
    assert!(!state.redo(&added, Outside::Contour(Some(&contour))));
    assert_eq!(state.kd_tree.get(index(2, 0, 8)), Some(point(1.0, 1.0)));
    assert!(!state.undo(&added, Outside::Contour(None)));
    assert_eq!(state.kd_tree.get(index(2, 0, 8)), Some(point(1.0, 1.0)));
    assert!(!state.undo(&added, Outside::Contour(Some(&contour))));
    assert_eq!(state.kd_tree.get(index(2, 0, 8)), None);

    let first = state.new_guideline(num(0.0), point(1.0, 2.0), 1).change;
    let second = state.new_guideline(num(90.0), point(3.0, 4.0), 2).change;
    assert!(state.redo(&first, Outside::Nothing));
    assert!(state.redo(&second, Outside::Nothing));
    let (a, b) = (guideline(1, 1.0, 2.0, 0.0), guideline(2, 3.0, 4.0, 90.0));
    assert_eq!(state.glyph.guidelines.to_vec(), vec![a, b]);

    let deleted = state.delete_guideline(0).change;
    assert!(state.redo(&deleted, Outside::Nothing));
    assert_eq!(state.glyph.guidelines.to_vec(), vec![b]);
    assert!(state.undo(&deleted, Outside::Nothing));
    assert_eq!(state.glyph.guidelines.to_vec(), vec![b, a]);
    assert!(state.undo(&second, Outside::Nothing));
    assert_eq!(state.glyph.guidelines.to_vec(), vec![b]);

    let placement = Placement { x: num(8.0), y: num(4.0), angle: num(90.0) };
    let back = Placement { x: num(3.0), y: num(4.0), angle: num(90.0) };
    let turned = state.transform_guideline(0, shift(), num(0.0), placement).0.change;
    assert!(!state.undo(&turned, Outside::Placement(None)));
    assert_eq!(state.glyph.guidelines.to_vec(), vec![guideline(2, 8.0, 4.0, 90.0)]);
    assert!(state.undo(&turned, Outside::Placement(Some(back))));
    assert_eq!(state.glyph.guidelines.to_vec(), vec![b]);
    assert!(state.redo(&turned, Outside::Placement(Some(placement))));
    assert_eq!(state.glyph.guidelines.to_vec(), vec![guideline(2, 8.0, 4.0, 90.0)]);

    let idxs = [index(0, 0, 1)];
    let moved = state.transform_points(&idxs, shift()).change;
    let points = state.points_to_transform(&idxs);
    assert!(state.redo(&moved, Outside::Moves(Some(&moved_right(&points, 5.0)))));
    assert_eq!(state.kd_tree.get(index(0, 0, 1)), Some(point(5.0, 0.0)));
    assert!(!state.undo(&moved, Outside::Moves(None)));
    assert_eq!(state.kd_tree.get(index(0, 0, 1)), Some(point(5.0, 0.0)));
    assert!(state.undo(&moved, Outside::Moves(Some(&points))));
    assert_eq!(state.kd_tree.get(index(0, 0, 1)), Some(point(0.0, 0.0)));
}

#[test]
fn undoing_a_contour_takes_out_points_that_were_there_before() {
    let mut state = start();
    let contour = glyph().contours[0].clone();
    state.redo_add_contour(&contour, 0);
    state.undo_add_contour(&contour, 0);
    assert_eq!(state.kd_tree.get(index(0, 0, 1)), None);
    assert_eq!(state.kd_tree.get(index(1, 0, 4)), Some(point(50.0, 50.0)));
}

#[test]
fn contours_that_are_not_named_stay_as_they_are() {
    let mut state = start();
    let idxs = [index(0, 0, 1), index(0, 1, 3)];
    let points = state.points_to_transform(&idxs);
    assert_eq!(contours_to_transform(&idxs), vec![0]);
    state.redo_transform_points(&idxs, &moved_right(&points, 5.0));
    assert_eq!(state.glyph.contours[0].id, 100);
    assert_eq!(state.glyph.contours[0].curves[1].points[0], at(3, 15.0, 10.0));
    assert_eq!(state.glyph.contours[1].id, 101);
    assert_eq!(
        state.glyph.contours[1].curves[0].points,
        vec![at(4, 50.0, 50.0), at(5, 60.0, 50.0)]
    );
    assert_eq!(state.kd_tree.get(index(1, 0, 4)), Some(point(50.0, 50.0)));
    assert_eq!(state.kd_tree.get(index(1, 0, 5)), Some(point(60.0, 50.0)));
}

#[test]
fn undoing_puts_points_back_that_the_table_lacked() {
    let mut state = start();
    let idxs = [index(0, 0, 2), index(1, 0, 4)];
    let points = state.points_to_transform(&idxs);
    state.kd_tree.remove(index(0, 0, 2));
    state.redo_transform_points(&idxs, &moved_right(&points, 5.0));
    assert_eq!(state.kd_tree.get(index(0, 0, 2)), Some(point(15.0, 0.0)));
    state.undo_transform_points(&idxs, Some(&points[..]));
    assert_eq!(state.kd_tree.get(index(0, 0, 2)), Some(point(10.0, 0.0)));
    assert_eq!(state.kd_tree.get(index(1, 0, 4)), Some(point(50.0, 50.0)));
    assert_eq!(state.kd_tree.get(index(0, 0, 1)), Some(point(0.0, 0.0)));
    assert_eq!(state.glyph.contours[0].curves[0].points, vec![at(1, 0.0, 0.0), at(2, 10.0, 0.0)]);
}

#[test]
fn undoing_is_redoing_the_inverse() {
    let (mut undone, mut redone) = (start(), start());
    let idxs = [index(0, 0, 1), index(1, 0, 5)];
    let back = moved_right(&undone.points_to_transform(&idxs), -5.0);
    let change = undone.transform_points(&idxs, shift()).change;
    let inverse =
        redone.transform_points(&idxs, Matrix { x0: num(-5.0), ..shift() }).change;
    assert!(undone.undo(&change, Outside::Moves(Some(&back))));
    assert!(redone.redo(&inverse, Outside::Moves(Some(&back))));
    for (c, k, uuid) in [(0, 0, 1), (0, 0, 2), (0, 1, 3), (1, 0, 4), (1, 0, 5)] {
        assert_eq!(undone.kd_tree.get(index(c, k, uuid)), redone.kd_tree.get(index(c, k, uuid)));
    }
    assert_eq!(undone.kd_tree.get(index(0, 0, 1)), Some(point(-5.0, 0.0)));
}
