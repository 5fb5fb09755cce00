use vstd::prelude::*;

verus! {

/// The errors that construction of a polygon can report.
#[derive(Debug, Clone, Copy, PartialEq, Eq, Structural)]
pub enum GeometryError {
    /// The input does not describe a sequence of points, e.g. a flat
    /// coordinate list with a trailing unpaired scalar.
    InvalidInput,
}

} // verus!
