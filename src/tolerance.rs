use vstd::prelude::*;

verus! {

/// Comparison up to a fixed numeric tolerance, for values whose
/// independent derivations may differ by rounding.
pub trait AlmostEqual {
    fn almost_equal(&self, other: &Self) -> bool;
}

} // verus!
