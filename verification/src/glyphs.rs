//! Glyphs, their contours and the points of these.

use vstd::prelude::*;

use crate::guidelines::Guidelines;
use crate::range_query::{insert_all, PointTable};

verus! {

/// A double-precision number, held as its bit pattern.
#[derive(Clone, Copy, Debug, PartialEq, Eq, Hash, Structural)]
pub struct Real {
    pub bits: u64,
}

/// A position in glyph units.
#[derive(Clone, Copy, Debug, PartialEq, Eq, Hash, Structural)]
pub struct Point {
    pub x: Real,
    pub y: Real,
}

/// An affine transformation: `(x, y)` goes to
/// `(xx * x + xy * y + x0, yx * x + yy * y + y0)`.
#[derive(Clone, Copy, Debug, PartialEq, Eq, Hash, Structural)]
pub struct Matrix {
    pub xx: Real,
    pub yx: Real,
    pub xy: Real,
    pub yy: Real,
    pub x0: Real,
    pub y0: Real,
}

/// Names a point of a glyph: the contour and the curve it belongs to, and its
/// own identifier.
#[derive(Clone, Copy, Debug, PartialEq, Eq, Hash, Structural)]
pub struct GlyphPointIndex {
    pub contour_index: usize,
    pub curve_index: usize,
    pub uuid: u128,
}

/// The bytes of a UUID, most significant first.
pub open spec fn spec_uuid_bytes(value: u128) -> Seq<u8> {
    vstd::bytes::spec_u128_to_le_bytes(value).reverse()
}

/// Calls `uuid::Uuid::from_u128` and reads the result out with
/// `uuid::Uuid::into_bytes`: the sixteen bytes of the value, the most
/// significant one first.
#[verifier::external_body]
fn uuid_bytes(value: u128) -> (bytes: [u8; 16])
    ensures
        bytes@ == spec_uuid_bytes(value),
{
    uuid::Uuid::from_u128(value).into_bytes()
}

impl GlyphPointIndex {
    /// The contour index and the curve index, eight bytes each and the least
    /// significant first, and the bytes of the identifier.
    pub open spec fn bytes(self) -> Seq<u8> {
        vstd::bytes::spec_u64_to_le_bytes(self.contour_index as u64)
            + vstd::bytes::spec_u64_to_le_bytes(self.curve_index as u64)
            + spec_uuid_bytes(self.uuid)
    }

    /// The index as bytes, all of it.
    pub fn as_bytes(&self) -> (bytes: Vec<u8>)
        ensures
            bytes@ == self.bytes(),
            bytes@.len() == 32,
    {
        let mut bytes: Vec<u8> = vstd::bytes::u64_to_le_bytes(self.contour_index as u64);
        let mut curve: Vec<u8> = vstd::bytes::u64_to_le_bytes(self.curve_index as u64);
        bytes.append(&mut curve);
        let id = uuid_bytes(self.uuid);
        let mut i: usize = 0;
        while i < 16
            invariant
                i <= 16,
                id@.len() == 16,
                id@ == spec_uuid_bytes(self.uuid),
                bytes@ == vstd::bytes::spec_u64_to_le_bytes(self.contour_index as u64)
                    + vstd::bytes::spec_u64_to_le_bytes(self.curve_index as u64)
                    + id@.take(i as int),
                bytes@.len() == 16 + i,
            decreases 16 - i,
        {
            bytes.push(id[i]);
            assert(id@.take(i + 1) =~= id@.take(i as int).push(id@[i as int]));
            i += 1;
        }
        assert(id@.take(16) =~= id@);
        bytes
    }
}

/// A point of a curve.
#[derive(Clone, Copy, Debug, PartialEq, Eq, Hash, Structural)]
pub struct CurvePoint {
    pub uuid: u128,
    pub position: Point,
}

impl CurvePoint {
    /// The index of this point, in the given curve of the given contour.
    pub open spec fn index_in(self, contour_index: usize, curve_index: usize) -> GlyphPointIndex {
        GlyphPointIndex { contour_index, curve_index, uuid: self.uuid }
    }

    /// The index of this point, in the given curve of the given contour.
    pub fn glyph_index(&self, contour_index: usize, curve_index: usize) -> (index: GlyphPointIndex)
        ensures
            index == self.index_in(contour_index, curve_index),
    {
        GlyphPointIndex { contour_index, curve_index, uuid: self.uuid }
    }

    /// This point, put where `places` says its index lies, if it says so.
    pub open spec fn placed(
        self,
        contour_index: usize,
        curve_index: usize,
        places: Map<GlyphPointIndex, Point>,
    ) -> CurvePoint {
        let index = self.index_in(contour_index, curve_index);
        if places.contains_key(index) {
            CurvePoint { uuid: self.uuid, position: places[index] }
        } else {
            self
        }
    }
}

/// A segment of a contour, given by its points.
#[derive(Clone, Debug)]
pub struct Curve {
    pub points: Vec<CurvePoint>,
}

impl Curve {
    /// The points of the curve in order, each with its index and position.
    pub open spec fn entries(self, contour_index: usize, curve_index: usize) -> Seq<
        (GlyphPointIndex, Point),
    > {
        self.points@.map_values(
            |p: CurvePoint| (p.index_in(contour_index, curve_index), p.position),
        )
    }
}

impl Curve {
    /// `self` is the curve `before` with those of its points that `places`
    /// holds put where it says.
    pub open spec fn is_moved(
        self,
        before: Curve,
        contour_index: usize,
        curve_index: usize,
        places: Map<GlyphPointIndex, Point>,
    ) -> bool {
        self.points@ == before.points@.map_values(
            |p: CurvePoint| p.placed(contour_index, curve_index, places),
        )
    }

    /// Puts those points of the curve that `places` holds where it says.
    fn move_points(&mut self, contour_index: usize, curve_index: usize, places: &PointTable)
        requires
            places.wf(),
        ensures
            final(self).is_moved(*old(self), contour_index, curve_index, places@),
    {
        let mut j: usize = 0;
        while j < self.points.len()
            invariant
                places.wf(),
                j <= self.points@.len(),
                self.points@.len() == old(self).points@.len(),
                forall|i: int|
                    0 <= i < j ==> #[trigger] self.points@[i] == old(self).points@[i].placed(
                        contour_index,
                        curve_index,
                        places@,
                    ),
                forall|i: int|
                    j <= i < self.points@.len() ==> #[trigger] self.points@[i]
                        == old(self).points@[i],
            decreases self.points@.len() - j,
        {
            let index = self.points[j].glyph_index(contour_index, curve_index);
            if let Some(position) = places.get(index) {
                self.points[j].position = position;
            }
            j += 1;
        }
        assert(self.points@ =~= old(self).points@.map_values(
            |p: CurvePoint| p.placed(contour_index, curve_index, places@),
        ));
    }
}

/// An outline of a glyph, made of curves. It is kept under the number `id`, which
/// tells it from others.
#[derive(Clone, Debug)]
pub struct Contour {
    pub id: u64,
    pub curves: Vec<Curve>,
}

impl Contour {
    /// The points of the first `n` curves, each with its index and position.
    pub open spec fn entries_below(self, contour_index: usize, n: nat) -> Seq<
        (GlyphPointIndex, Point),
    >
        decreases n,
    {
        if n == 0 {
            Seq::empty()
        } else {
            self.entries_below(contour_index, (n - 1) as nat) + self.curves@[n - 1].entries(
                contour_index,
                (n - 1) as usize,
            )
        }
    }

    /// The points of the contour, curve by curve, each with its index and
    /// position.
    pub open spec fn entries(self, contour_index: usize) -> Seq<(GlyphPointIndex, Point)> {
        self.entries_below(contour_index, self.curves@.len())
    }

    /// Lists the points of the contour, curve by curve, each with its index and
    /// position.
    pub fn indexed_points(&self, contour_index: usize) -> (entries: Vec<(GlyphPointIndex, Point)>)
        ensures
            entries@ == self.entries(contour_index),
    {
        let mut entries: Vec<(GlyphPointIndex, Point)> = Vec::new();
        let mut k: usize = 0;
        while k < self.curves.len()
            invariant
                k <= self.curves@.len(),
                entries@ == self.entries_below(contour_index, k as nat),
            decreases self.curves@.len() - k,
        {
            let ghost before = entries@;
            let curve = &self.curves[k];
            let mut j: usize = 0;
            while j < curve.points.len()
                invariant
                    j <= curve.points@.len(),
                    entries@ == before + curve.entries(contour_index, k).take(j as int),
                decreases curve.points@.len() - j,
            {
                let p = curve.points[j];
                entries.push((p.glyph_index(contour_index, k), p.position));
                let ghost all = curve.entries(contour_index, k);
                assert(all.take(j + 1) =~= all.take(j as int).push(all[j as int]));
                j += 1;
            }
            assert(curve.entries(contour_index, k).take(j as int) =~= curve.entries(
                contour_index,
                k,
            ));
            k += 1;
        }
        entries
    }

    /// The points of the contour that `idxs` names, with their positions, in
    /// the contour's order.
    pub open spec fn chosen(self, contour_index: usize, idxs: Seq<GlyphPointIndex>) -> Seq<
        (GlyphPointIndex, Point),
    > {
        self.entries(contour_index).filter(|e: (GlyphPointIndex, Point)| idxs.contains(e.0))
    }

    /// Lists the points of the contour that `idxs` names, with their positions,
    /// in the contour's order.
    pub fn chosen_points(&self, contour_index: usize, idxs: &[GlyphPointIndex]) -> (chosen: Vec<
        (GlyphPointIndex, Point),
    >)
        ensures
            chosen@ == self.chosen(contour_index, idxs@),
    {
        let entries = self.indexed_points(contour_index);
        let mut chosen: Vec<(GlyphPointIndex, Point)> = Vec::new();
        let ghost named = |e: (GlyphPointIndex, Point)| idxs@.contains(e.0);
        let mut i: usize = 0;
        assert(entries@.take(0) =~= Seq::empty());
        reveal(Seq::filter);
        while i < entries.len()
            invariant
                i <= entries@.len(),
                named == (|e: (GlyphPointIndex, Point)| idxs@.contains(e.0)),
                chosen@ == entries@.take(i as int).filter(named),
            decreases entries@.len() - i,
        {
            let entry = entries[i];
            assert(entries@.take(i + 1).drop_last() =~= entries@.take(i as int));
            reveal(Seq::filter);
            if names(idxs, entry.0) {
                chosen.push(entry);
            }
            i += 1;
        }
        assert(entries@.take(i as int) =~= entries@);
        chosen
    }
}

impl Contour {
    /// `self` is the contour `before` with those of its points that `places`
    /// holds put where it says.
    pub open spec fn is_moved(
        self,
        before: Contour,
        contour_index: usize,
        places: Map<GlyphPointIndex, Point>,
    ) -> bool {
        &&& self.id == before.id
        &&& self.curves@.len() == before.curves@.len()
        &&& forall|k: int|
            0 <= k < self.curves@.len() ==> (#[trigger] self.curves@[k]).is_moved(
                before.curves@[k],
                contour_index,
                k as usize,
                places,
            )
    }

    /// Puts those points of the contour that `places` holds where it says.
    fn move_points(&mut self, contour_index: usize, places: &PointTable)
        requires
            places.wf(),
        ensures
            final(self).is_moved(*old(self), contour_index, places@),
    {
        let mut k: usize = 0;
        while k < self.curves.len()
            invariant
                places.wf(),
                k <= self.curves@.len(),
                self.id == old(self).id,
                self.curves@.len() == old(self).curves@.len(),
                forall|i: int|
                    0 <= i < k ==> (#[trigger] self.curves@[i]).is_moved(
                        old(self).curves@[i],
                        contour_index,
                        i as usize,
                        places@,
                    ),
                forall|i: int|
                    k <= i < self.curves@.len() ==> #[trigger] self.curves@[i]
                        == old(self).curves@[i],
            decreases self.curves@.len() - k,
        {
            self.curves[k].move_points(contour_index, k, places);
            k += 1;
        }
    }
}

/// Whether `idxs` names the point `index`.
pub fn names(idxs: &[GlyphPointIndex], index: GlyphPointIndex) -> (found: bool)
    ensures
        found == idxs@.contains(index),
{
    let mut i: usize = 0;
    while i < idxs.len()
        invariant
            i <= idxs@.len(),
            forall|j: int| 0 <= j < i ==> idxs@[j] != index,
        decreases idxs@.len() - i,
    {
        if idxs[i] == index {
            return true;
        }
        i += 1;
    }
    false
}

/// A glyph: how its name is written in markup, its advance width where it has
/// one, its contours and its guidelines.
#[derive(Clone, Debug)]
pub struct Glyph {
    pub name_markup: String,
    pub width: Option<Real>,
    pub contours: Vec<Contour>,
    pub guidelines: Guidelines,
}

impl Glyph {
    /// The points of the first `n` contours, each with its index and position.
    pub open spec fn entries_below(self, n: nat) -> Seq<(GlyphPointIndex, Point)>
        decreases n,
    {
        if n == 0 {
            Seq::empty()
        } else {
            self.entries_below((n - 1) as nat) + self.contours@[n - 1].entries((n - 1) as usize)
        }
    }

    /// All points of the glyph, contour by contour and curve by curve, each with
    /// its index and position.
    pub open spec fn entries(self) -> Seq<(GlyphPointIndex, Point)> {
        self.entries_below(self.contours@.len())
    }

    /// Whether there is a `j`-th point on the `k`-th curve of the `c`-th contour.
    pub open spec fn has_point(self, c: int, k: int, j: int) -> bool {
        &&& 0 <= c < self.contours@.len()
        &&& 0 <= k < self.contours@[c].curves@.len()
        &&& 0 <= j < self.contours@[c].curves@[k].points@.len()
    }

    /// The `j`-th point on the `k`-th curve of the `c`-th contour.
    pub open spec fn point_at(self, c: int, k: int, j: int) -> CurvePoint {
        self.contours@[c].curves@[k].points@[j]
    }

    /// `self` differs from `before` only in where points lie: those that
    /// `places` holds lie where it says.
    pub open spec fn is_moved(self, before: Glyph, places: Map<GlyphPointIndex, Point>) -> bool {
        &&& self.name_markup == before.name_markup
        &&& self.width == before.width
        &&& self.guidelines == before.guidelines
        &&& self.contours@.len() == before.contours@.len()
        &&& forall|c: int|
            0 <= c < self.contours@.len() ==> (#[trigger] self.contours@[c]).is_moved(
                before.contours@[c],
                c as usize,
                places,
            )
    }

    /// Moves every point that `moved` names to the position it gives there. Where
    /// it names a point more than once, the last position counts.
    pub fn move_points(&mut self, moved: &[(GlyphPointIndex, Point)])
        ensures
            final(self).is_moved(*old(self), insert_all(Map::empty(), moved@)),
    {
        let mut places = PointTable::new();
        places.add_all(moved);
        let mut c: usize = 0;
        while c < self.contours.len()
            invariant
                places.wf(),
                c <= self.contours@.len(),
                self.name_markup == old(self).name_markup,
                self.width == old(self).width,
                self.guidelines == old(self).guidelines,
                self.contours@.len() == old(self).contours@.len(),
                forall|i: int|
                    0 <= i < c ==> (#[trigger] self.contours@[i]).is_moved(
                        old(self).contours@[i],
                        i as usize,
                        places@,
                    ),
                forall|i: int|
                    c <= i < self.contours@.len() ==> #[trigger] self.contours@[i]
                        == old(self).contours@[i],
            decreases self.contours@.len() - c,
        {
            self.contours[c].move_points(c, &places);
            c += 1;
        }
    }
}

} // verus!
