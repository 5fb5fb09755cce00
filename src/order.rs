use vstd::prelude::*;

use std::cmp::Ordering;

verus! {

/// Lexicographic combination of the comparisons of two components: the
/// first decides unless it finds them equal, in which case the second does.
pub fn lexicographic(first: Option<Ordering>, second: Option<Ordering>) -> (r: Option<Ordering>)
    ensures
        r == (if first == Some(Ordering::Equal) {
            second
        } else {
            first
        }),
{
    match first {
        Some(Ordering::Equal) => second,
        _ => first,
    }
}

} // verus!
