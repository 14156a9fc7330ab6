//! Changes that can be redone and undone.

use vstd::prelude::*;

use crate::glyphs::{GlyphPointIndex, Matrix, Real};
use crate::guidelines::Guideline;

verus! {

/// The kind of thing that a change is about.
#[derive(Clone, Copy, Debug, PartialEq, Eq, Structural)]
pub enum Subject {
    Contour,
    Guideline,
    Point,
}

/// What a change is about. Successive changes with the same stamp may be
/// compressed into one.
#[derive(Clone, Debug)]
pub struct EventStamp {
    pub property: Subject,
    pub id: Vec<u8>,
}

/// What is done, with all that is needed to do it again or to undo it, but for
/// what a transformation computes.
#[derive(Clone, Debug)]
pub enum Change {
    /// The contour that is kept under the number `contour` is added.
    AddContour { contour: u64, contour_index: usize },
    /// The guideline that goes by the number comes up.
    NewGuideline { number: usize },
    DeleteGuideline { idx: usize, guideline: Guideline },
    TransformGuideline { idx: usize, m: Matrix, dangle: Real },
    TransformPoints { idxs: Vec<GlyphPointIndex>, m: Matrix },
}

/// A reversible change: its stamp, whether it may be compressed with the one
/// before it, and what it does.
#[derive(Clone, Debug)]
pub struct Action {
    pub stamp: EventStamp,
    pub compress: bool,
    pub change: Change,
}

/// The stamp id of an item in a list: the least significant byte of its
/// position there, and no more. Items whose positions agree in that byte share
/// the id.
pub open spec fn item_id(idx: usize) -> Seq<u8> {
    seq![(idx % 256) as u8]
}

pub(crate) fn item_stamp(property: Subject, idx: usize) -> (stamp: EventStamp)
    ensures
        stamp.property == property,
        stamp.id@ == item_id(idx),
{
    let mut id: Vec<u8> = Vec::new();
    id.push((idx % 256) as u8);
    EventStamp { property, id }
}

/// The stamp id of a list of points: the bytes of their indices, one after the
/// other.
pub open spec fn points_id(idxs: Seq<GlyphPointIndex>) -> Seq<u8>
    decreases idxs.len(),
{
    if idxs.len() == 0 {
        Seq::empty()
    } else {
        points_id(idxs.drop_last()) + idxs.last().bytes()
    }
}

pub(crate) fn points_stamp(idxs: &[GlyphPointIndex]) -> (stamp: EventStamp)
    ensures
        stamp.property == Subject::Point,
        stamp.id@ == points_id(idxs@),
{
    let mut id: Vec<u8> = Vec::new();
    let mut i: usize = 0;
    assert(idxs@.take(0) =~= Seq::empty());
    while i < idxs.len()
        invariant
            i <= idxs@.len(),
            id@ == points_id(idxs@.take(i as int)),
        decreases idxs@.len() - i,
    {
        assert(idxs@.take(i + 1).drop_last() =~= idxs@.take(i as int));
        let mut bytes = idxs[i].as_bytes();
        id.append(&mut bytes);
        i += 1;
    }
    assert(idxs@.take(i as int) =~= idxs@);
    EventStamp { property: Subject::Point, id }
}

} // verus!
