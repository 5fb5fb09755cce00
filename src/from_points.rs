use vstd::prelude::*;

use crate::polygon::{SimplePolygon, SinglePolygon};
use crate::ring::{copy_ring, rings_view};

verus! {

/// Construction of a polygon with holes from an exterior ring and hole rings
/// given in the shape `T`.
pub trait FromPoints<T>: Sized {
    fn from_points(ex: T, inner: Vec<T>) -> Self;
}

/// Construction of a polygon without holes from a ring given in the shape `T`.
pub trait FromPoint<T>: Sized {
    fn from_points(ex: T) -> Self;
}

impl<P: Copy> FromPoints<Vec<P>> for SinglePolygon<P> {
    fn from_points(ex: Vec<P>, inner: Vec<Vec<P>>) -> (r: Self)
        ensures
            r.exterior_ring() == ex@,
            r.hole_rings() == rings_view(inner@),
    {
        SinglePolygon::new(ex, inner)
    }
}

impl<P: Copy> FromPoint<Vec<P>> for SimplePolygon<P> {
    fn from_points(ex: Vec<P>) -> (r: Self)
        ensures
            r@ == ex@,
    {
        SimplePolygon::new(ex)
    }
}

impl<'a, P: Copy> FromPoint<&'a Vec<P>> for SimplePolygon<P> {
    fn from_points(ex: &'a Vec<P>) -> (r: Self)
        ensures
            r@ == ex@,
    {
        SimplePolygon::new(copy_ring(ex))
    }
}

} // verus!
