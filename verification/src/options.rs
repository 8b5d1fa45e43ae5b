//! Arithmetic on optional values.

use vstd::prelude::*;

verus! {

/// What [`plus_one`] returns: `None` stays `None`, and a present value is
/// incremented.
pub open spec fn spec_plus_one(x: Option<i32>) -> Option<i32> {
    match x {
        None => None,
        Some(i) => Some((i + 1) as i32),
    }
}

/// Adds one to the value inside `x`, if there is one.  The bound in
/// `requires` keeps the addition from overflowing `i32`.
pub fn plus_one(x: Option<i32>) -> (r: Option<i32>)
    requires
        x matches Some(i) ==> i < i32::MAX,
    ensures
        r == spec_plus_one(x),
{
    match x {
        None => None,
        Some(i) => Some(i + 1),
    }
}

} // verus!
