use vstd::prelude::*;

use vstd::std_specs::cmp::PartialEqSpec;

use crate::error::GeometryError;
use crate::path::{point_list_plan, polygon_path, polygon_plan, ring_path, DrawPlan};
use crate::ring::{copy_ring, coordinate_pairs, coordinate_rings, pairs_of, rings_view};

verus! {

/// A polygon bounded by one closed ring and without holes. The ring is kept
/// exactly as given: it is neither closed nor deduplicated, and simplicity
/// is the caller's responsibility.
pub struct SimplePolygon<P> {
    exterior: Vec<P>,
}

/// A polygon with one exterior ring and an ordered list of hole rings. That
/// the holes lie inside the exterior and do not overlap is the caller's
/// responsibility.
pub struct SinglePolygon<P> {
    exterior: Vec<P>,
    interiors: Vec<Vec<P>>,
}

/// A polygon whose single exterior ring the caller asserts to be convex.
pub struct ConvexPolygon<P> {
    exterior: Vec<P>,
}

impl<P> View for SimplePolygon<P> {
    type V = Seq<P>;

    /// The exterior ring.
    closed spec fn view(&self) -> Seq<P> {
        self.exterior@
    }
}

impl<P> View for ConvexPolygon<P> {
    type V = Seq<P>;

    /// The exterior ring.
    closed spec fn view(&self) -> Seq<P> {
        self.exterior@
    }
}

impl<P> SinglePolygon<P> {
    /// The exterior ring.
    pub closed spec fn exterior_ring(&self) -> Seq<P> {
        self.exterior@
    }

    /// The hole rings, in order.
    pub closed spec fn hole_rings(&self) -> Seq<Seq<P>> {
        rings_view(self.interiors@)
    }
}

impl<P: Copy> SimplePolygon<P> {
    pub fn new(ex: Vec<P>) -> (r: Self)
        ensures
            r@ == ex@,
    {
        SimplePolygon { exterior: ex }
    }

    /// The number of connected pieces: always one.
    pub fn len(&self) -> (r: usize)
        ensures
            r == 1,
    {
        1
    }

    /// The points of the exterior ring, in order.
    pub fn vertices(&self) -> (r: Vec<P>)
        ensures
            r@ == self@,
    {
        copy_ring(&self.exterior)
    }

    pub fn has_hole(&self) -> (r: bool)
        ensures
            !r,
    {
        false
    }

    pub fn num_hole(&self) -> (r: usize)
        ensures
            r == 0,
    {
        0
    }

    pub fn holes(&self) -> (r: Vec<Self>)
        ensures
            r@.len() == 0,
    {
        Vec::new()
    }

    pub fn is_simple(&self) -> (r: bool)
        ensures
            r,
    {
        true
    }

    /// Widens a convex polygon: the ring is kept.
    pub fn from_convex(pol: ConvexPolygon<P>) -> (r: Self)
        ensures
            r@ == pol@,
    {
        SimplePolygon { exterior: pol.exterior }
    }

    /// Drops the holes of `pol` and keeps its exterior ring.
    pub fn from_single(pol: SinglePolygon<P>) -> (r: Self)
        ensures
            r@ == pol.exterior_ring(),
    {
        SimplePolygon { exterior: pol.exterior }
    }
}

impl<T: Copy> SimplePolygon<(T, T)> {
    /// Builds the polygon from a flat list `[x0, y0, x1, y1, ...]`; a list of
    /// odd length is rejected.
    pub fn from_flat(ex: Vec<T>) -> (r: Result<Self, GeometryError>)
        ensures
            ex@.len() % 2 == 0 <==> r is Ok,
            r matches Ok(pol) ==> pol@ == pairs_of(ex@),
            r matches Err(e) ==> e == GeometryError::InvalidInput,
    {
        match coordinate_pairs(ex) {
            Ok(pts) => Ok(SimplePolygon::new(pts)),
            Err(e) => Err(e),
        }
    }
}

impl<P: Copy> SinglePolygon<P> {
    pub fn new(ex: Vec<P>, inners: Vec<Vec<P>>) -> (r: Self)
        ensures
            r.exterior_ring() == ex@,
            r.hole_rings() == rings_view(inners@),
    {
        SinglePolygon { exterior: ex, interiors: inners }
    }

    /// The number of connected pieces: always one.
    pub fn len(&self) -> (r: usize)
        ensures
            r == 1,
    {
        1
    }

    /// The points of the exterior ring, in order.
    pub fn vertices(&self) -> (r: Vec<P>)
        ensures
            r@ == self.exterior_ring(),
    {
        copy_ring(&self.exterior)
    }

    pub fn has_hole(&self) -> (r: bool)
        ensures
            r == (self.hole_rings().len() > 0),
    {
        self.interiors.len() > 0
    }

    pub fn num_hole(&self) -> (r: usize)
        ensures
            r == self.hole_rings().len(),
    {
        self.interiors.len()
    }

    /// The exterior ring as a polygon of its own.
    pub fn out_polygon(&self) -> (r: SimplePolygon<P>)
        ensures
            r@ == self.exterior_ring(),
    {
        SimplePolygon::new(copy_ring(&self.exterior))
    }

    /// Each hole ring as a polygon of its own, in order.
    pub fn holes(&self) -> (r: Vec<SimplePolygon<P>>)
        ensures
            r@.len() == self.hole_rings().len(),
            forall|i: int| 0 <= i < r@.len() ==> #[trigger] r@[i]@ == self.hole_rings()[i],
    {
        let mut out: Vec<SimplePolygon<P>> = Vec::with_capacity(self.interiors.len());
        let mut i: usize = 0;
        while i < self.interiors.len()
            invariant
                i <= self.interiors@.len(),
                out@.len() == i,
                forall|k: int| 0 <= k < i ==> #[trigger] out@[k]@ == self.hole_rings()[k],
            decreases self.interiors@.len() - i,
        {
            out.push(SimplePolygon::new(copy_ring(&self.interiors[i])));
            i += 1;
        }
        out
    }

    /// The hole at index `i` as a polygon of its own, or `None` when there is
    /// no such hole.
    pub fn hole(&self, i: usize) -> (r: Option<SimplePolygon<P>>)
        ensures
            i < self.hole_rings().len() <==> r is Some,
            r matches Some(h) ==> h@ == self.hole_rings()[i as int],
    {
        if i < self.interiors.len() {
            Some(SimplePolygon::new(copy_ring(&self.interiors[i])))
        } else {
            None
        }
    }

    /// Whether the polygon has no hole.
    pub fn is_simple(&self) -> (r: bool)
        ensures
            r == (self.hole_rings().len() == 0),
    {
        self.interiors.len() == 0
    }

    /// Widens a simple polygon: the ring is kept and there is no hole.
    pub fn from_simple(pol: SimplePolygon<P>) -> (r: Self)
        ensures
            r.exterior_ring() == pol@,
            r.hole_rings().len() == 0,
    {
        SinglePolygon { exterior: pol.exterior, interiors: Vec::new() }
    }

    /// Widens a convex polygon: the ring is kept and there is no hole.
    pub fn from_convex(pol: ConvexPolygon<P>) -> (r: Self)
        ensures
            r.exterior_ring() == pol@,
            r.hole_rings().len() == 0,
    {
        SinglePolygon { exterior: pol.exterior, interiors: Vec::new() }
    }
}

impl<T: Copy> SinglePolygon<(T, T)> {
    /// Builds the polygon from flat lists `[x0, y0, x1, y1, ...]`, one for the
    /// exterior and one for each hole; rejected when any of them has odd
    /// length.
    pub fn from_flat(ex: Vec<T>, inner: Vec<Vec<T>>) -> (r: Result<Self, GeometryError>)
        ensures
            (ex@.len() % 2 == 0 && forall|k: int|
                0 <= k < inner@.len() ==> #[trigger] inner@[k]@.len() % 2 == 0) <==> r is Ok,
            r matches Ok(pol) ==> pol.exterior_ring() == pairs_of(ex@) && pol.hole_rings().len()
                == inner@.len() && forall|k: int|
                0 <= k < inner@.len() ==> #[trigger] pol.hole_rings()[k] == pairs_of(inner@[k]@),
            r matches Err(e) ==> e == GeometryError::InvalidInput,
    {
        let ex_pts = match coordinate_pairs(ex) {
            Ok(pts) => pts,
            Err(e) => return Err(e),
        };
        match coordinate_rings(inner) {
            Ok(rings) => Ok(SinglePolygon::new(ex_pts, rings)),
            Err(e) => Err(e),
        }
    }
}

impl<P: Copy> ConvexPolygon<P> {
    pub fn new(ex: Vec<P>) -> (r: Self)
        ensures
            r@ == ex@,
    {
        ConvexPolygon { exterior: ex }
    }

    /// The number of connected pieces: always one.
    pub fn len(&self) -> (r: usize)
        ensures
            r == 1,
    {
        1
    }

    /// The points of the exterior ring, in order.
    pub fn vertices(&self) -> (r: Vec<P>)
        ensures
            r@ == self@,
    {
        copy_ring(&self.exterior)
    }

    pub fn is_simple(&self) -> (r: bool)
        ensures
            r,
    {
        true
    }

    pub fn has_hole(&self) -> (r: bool)
        ensures
            !r,
    {
        false
    }

    pub fn num_hole(&self) -> (r: usize)
        ensures
            r == 0,
    {
        0
    }

    pub fn holes(&self) -> (r: Vec<Self>)
        ensures
            r@.len() == 0,
    {
        Vec::new()
    }
}

impl<P: Copy> SimplePolygon<P> {
    /// The drawing of the exterior ring as a point sequence.
    pub fn draw_plan(&self, fill: bool) -> (r: Option<DrawPlan<P>>)
        ensures
            self@.len() == 0 <==> r is None,
            r matches Some(plan) ==> {
                &&& plan.commands@ == ring_path(self@)
                &&& plan.stroke == (self@.len() >= 3)
                &&& plan.fill == (fill && self@.len() >= 3)
            },
    {
        point_list_plan(&self.exterior, fill)
    }
}

impl<P: Copy> ConvexPolygon<P> {
    /// The drawing of the exterior ring as a point sequence.
    pub fn draw_plan(&self, fill: bool) -> (r: Option<DrawPlan<P>>)
        ensures
            self@.len() == 0 <==> r is None,
            r matches Some(plan) ==> {
                &&& plan.commands@ == ring_path(self@)
                &&& plan.stroke == (self@.len() >= 3)
                &&& plan.fill == (fill && self@.len() >= 3)
            },
    {
        point_list_plan(&self.exterior, fill)
    }
}

impl<P: PartialEq + Copy> SinglePolygon<P> {
    /// The drawing of the exterior ring and the holes as one path; `origin`
    /// stands in for the end points of an exterior ring too short to have
    /// them.
    pub fn draw_plan(&self, origin: P, fill: bool) -> (r: DrawPlan<P>)
        ensures
            P::obeys_eq_spec() ==> r.commands@ == polygon_path(
                self.exterior_ring(),
                self.hole_rings(),
                origin,
            ),
            r.stroke,
            r.fill == fill,
    {
        polygon_plan(&self.exterior, &self.interiors, origin, fill)
    }
}

} // verus!
