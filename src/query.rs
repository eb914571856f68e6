//! What a nearest-point query reports to its caller.

use vstd::prelude::*;

verus! {

/// The value reported when the index holds no point.
pub const NOT_FOUND: i32 = -1;

/// Maps the payload of the nearest point, if there is one, to the value a
/// caller sees: the payload itself (already the absolute position in the
/// caller's array), or `NOT_FOUND` for an empty index.
pub fn find_result(nearest: Option<i32>) -> (r: i32)
    ensures
        r == match nearest {
            Some(p) => p,
            None => NOT_FOUND,
        },
{
    match nearest {
        Some(p) => p,
        None => NOT_FOUND,
    }
}

} // verus!
