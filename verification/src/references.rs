//! Functions that borrow strings instead of taking ownership: measuring
//! through a shared borrow and appending through a mutable one.

use vstd::prelude::*;
use vstd::string::StringExecFns;
use vstd::utf8::encode_utf8;

verus! {

/// Returns an owned string rather than a borrow of a local, which could not
/// outlive this function.
pub fn no_dangle() -> (s: String)
    ensures
        s@ == "hello"@,
{
    let s = String::from_str("hello");
    s
}

/// Appends ", world" to the borrowed string in place.
pub fn change2(some_string: &mut String)
    ensures
        final(some_string)@ == old(some_string)@ + ", world"@,
{
    some_string.append(", world");
}

/// The length of `s` in bytes, read through a shared borrow.
pub fn calculate_length(s: &String) -> (r: usize)
    ensures
        r == encode_utf8(s@).len(),
{
    s.as_str().as_bytes().len()
}

} // verus!
