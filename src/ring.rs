use vstd::prelude::*;

use crate::error::GeometryError;

verus! {

/// The points that a flat coordinate list `[x0, y0, x1, y1, ...]` describes,
/// grouped two by two in order.
pub open spec fn pairs_of<T>(values: Seq<T>) -> Seq<(T, T)> {
    Seq::new(values.len() / 2, |i: int| (values[2 * i], values[2 * i + 1]))
}

/// The views of a list of rings.
pub open spec fn rings_view<P>(rings: Seq<Vec<P>>) -> Seq<Seq<P>> {
    rings.map_values(|r: Vec<P>| r@)
}

/// A copy of a ring of points, element by element.
pub fn copy_ring<P: Copy>(ring: &Vec<P>) -> (r: Vec<P>)
    ensures
        r@ == ring@,
{
    let mut out: Vec<P> = Vec::with_capacity(ring.len());
    let mut i: usize = 0;
    while i < ring.len()
        invariant
            i <= ring@.len(),
            out@ == ring@.subrange(0, i as int),
        decreases ring@.len() - i,
    {
        out.push(ring[i]);
        i += 1;
        proof {
            assert(out@ =~= ring@.subrange(0, i as int));
        }
    }
    proof {
        assert(out@ =~= ring@);
    }
    out
}

/// Relies on itertools::Itertools::tuples: it yields consecutive,
/// non-overlapping pairs of the input in order and drops a trailing element
/// that has no partner.
#[verifier::external_body]
fn tuples_of<T: Copy>(values: Vec<T>) -> (r: Vec<(T, T)>)
    ensures
        r@ == pairs_of(values@),
{
    itertools::Itertools::tuples::<(T, T)>(values.into_iter()).collect()
}

/// Groups a flat coordinate list into points. A list of odd length has an
/// unpaired trailing coordinate and is rejected.
pub fn coordinate_pairs<T: Copy>(values: Vec<T>) -> (r: Result<Vec<(T, T)>, GeometryError>)
    ensures
        values@.len() % 2 == 0 <==> r is Ok,
        r matches Ok(pts) ==> pts@ == pairs_of(values@),
        r matches Err(e) ==> e == GeometryError::InvalidInput,
{
    if values.len() % 2 != 0 {
        Err(GeometryError::InvalidInput)
    } else {
        Ok(tuples_of(values))
    }
}

/// Groups each flat coordinate list of `rings` into points; rejected as soon
/// as one of them has odd length.
pub fn coordinate_rings<T: Copy>(rings: Vec<Vec<T>>) -> (r: Result<Vec<Vec<(T, T)>>, GeometryError>)
    ensures
        (forall|k: int| 0 <= k < rings@.len() ==> #[trigger] rings@[k]@.len() % 2 == 0)
            <==> r is Ok,
        r matches Ok(out) ==> out@.len() == rings@.len() && forall|k: int|
            0 <= k < rings@.len() ==> #[trigger] out@[k]@ == pairs_of(rings@[k]@),
        r matches Err(e) ==> e == GeometryError::InvalidInput,
{
    let mut out: Vec<Vec<(T, T)>> = Vec::with_capacity(rings.len());
    let mut i: usize = 0;
    while i < rings.len()
        invariant
            i <= rings@.len(),
            out@.len() == i,
            forall|k: int| 0 <= k < i ==> #[trigger] rings@[k]@.len() % 2 == 0,
            forall|k: int| 0 <= k < i ==> #[trigger] out@[k]@ == pairs_of(rings@[k]@),
        decreases rings@.len() - i,
    {
        let ring = copy_ring(&rings[i]);
        match coordinate_pairs(ring) {
            Ok(pts) => out.push(pts),
            Err(e) => return Err(e),
        }
        i += 1;
    }
    Ok(out)
}

} // verus!
