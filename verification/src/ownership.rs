//! Functions that pass owned strings around: handing a value out, handing
//! it back, and returning a value together with a computed length.

use vstd::prelude::*;
use vstd::string::StringExecFns;
use vstd::utf8::encode_utf8;

verus! {

/// Produces an owned string for the caller to keep.
pub fn gives_ownership() -> (s: String)
    ensures
        s@ == "yours"@,
{
    let some_string = String::from_str("yours");
    some_string
}

/// Takes ownership of a string and hands the very same value back.
pub fn takes_and_gives_back(a_string: String) -> (r: String)
    ensures
        r == a_string,
{
    a_string
}

/// Returns the string together with its length in bytes, so the caller
/// regains ownership alongside the computed value.
pub fn calculate_length(s: String) -> (r: (String, usize))
    ensures
        r.0 == s,
        r.1 == encode_utf8(s@).len(),
{
    let length = s.as_str().as_bytes().len();
    (s, length)
}

} // verus!
