//! First-word helpers over strings: a byte-index form and a slice form.
//!
//! Both scan left to right for the first space.  `first_word` hands back a
//! bare byte index, which nothing ties to the string it came from;
//! `first_word_with_slice` returns a borrowed slice instead, so the borrow
//! checker itself refuses any later mutation of the source while the word is
//! alive.  The `tokenizer` module carries the same discipline over to
//! buffers that must be mutated dynamically.

use vstd::prelude::*;
use vstd::slice::slice_index_get;
use vstd::string::{string_is_ascii, StrSliceExecFns};
use vstd::utf8::encode_utf8;

use crate::tokenizer::{is_token_end, IsSpace, SPACE};

verus! {

/// Holds when `end` is where the first word of `chars` stops: no character
/// before `end` is a space, and the character at `end` — if there is one —
/// is a space.
pub open spec fn is_word_end(chars: Seq<char>, end: int) -> bool {
    &&& 0 <= end <= chars.len()
    &&& (forall|j: int| 0 <= j < end ==> chars[j] != ' ')
    &&& (end < chars.len() ==> chars[end] == ' ')
}

/// Returns the byte index at which the first word of `s` ends: the index of
/// the first space byte, or the byte length of `s` when it has no space.
pub fn first_word(s: &String) -> (r: usize)
    ensures
        is_token_end(&IsSpace, encode_utf8(s@), r as int),
{
    let bytes = s.as_str().as_bytes();
    let n = bytes.len();
    let mut i: usize = 0;
    while i < n
        invariant
            i <= n,
            n == bytes@.len(),
            bytes@ == encode_utf8(s@),
            forall|j: int| 0 <= j < i ==> bytes@[j] != SPACE,
        decreases n - i,
    {
        if *slice_index_get(bytes, i) == SPACE {
            return i;
        }
        i = i + 1;
    }
    n
}

/// Returns the first word of `s` as a slice borrowed from `s`: everything
/// before the first space, or all of `s` when it has no space.  Restricted
/// to ASCII strings, where one character is one byte, so the slice can never
/// split a multi-byte character.
pub fn first_word_with_slice<'a>(s: &'a String) -> (ret: &'a str)
    requires
        string_is_ascii(s),
    ensures
        is_word_end(s@, ret@.len() as int),
        ret@ == s@.subrange(0, ret@.len() as int),
{
    let n = s.as_str().unicode_len();
    let mut i: usize = 0;
    while i < n
        invariant
            i <= n,
            n == s@.len(),
            string_is_ascii(s),
            forall|j: int| 0 <= j < i ==> s@[j] != ' ',
        decreases n - i,
    {
        if s.as_str().get_char(i) == ' ' {
            return s.as_str().substring_ascii(0, i);
        }
        i = i + 1;
    }
    let whole = s.as_str();
    proof {
        assert(whole@ == s@.subrange(0, whole@.len() as int));
    }
    whole
}

} // verus!
