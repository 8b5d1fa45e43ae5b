//! A byte buffer with a version stamp, and read-only token views into it.
//!
//! A [`Buffer`] owns a growable sequence of bytes and carries a version
//! stamp that increases on every mutation.  [`first_token`] scans the buffer
//! left to right for the first byte matched by a delimiter predicate and
//! returns a [`TokenView`]: a non-owning (offset, length) descriptor stamped
//! with the buffer's version at the moment of the scan.  Reading through a
//! view checks the stamp first; if the buffer has mutated since the view was
//! made, the read reports [`InvalidatedView`] instead of stale bytes.

use vstd::prelude::*;
use vstd::slice::slice_subrange;

verus! {

/// A total, pure test on a single byte, deciding where a token ends.
pub trait DelimiterPredicate {
    /// The mathematical meaning of the predicate.
    spec fn spec_delimits(&self, byte: u8) -> bool;

    /// Executable test; agrees with `spec_delimits` on every byte.
    fn delimits(&self, byte: u8) -> (r: bool)
        ensures
            r == self.spec_delimits(byte),
    ;
}

/// The ASCII code of the space character.
pub const SPACE: u8 = 32;

/// Matches exactly the ASCII space byte.
pub struct IsSpace;

impl DelimiterPredicate for IsSpace {
    open spec fn spec_delimits(&self, byte: u8) -> bool {
        byte == SPACE
    }

    fn delimits(&self, byte: u8) -> (r: bool) {
        byte == SPACE
    }
}

/// Matches exactly one chosen byte.
pub struct ByteDelimiter {
    pub delim: u8,
}

impl DelimiterPredicate for ByteDelimiter {
    open spec fn spec_delimits(&self, byte: u8) -> bool {
        byte == self.delim
    }

    fn delimits(&self, byte: u8) -> (r: bool) {
        byte == self.delim
    }
}

/// The sole error of this module: a view was read after its source buffer
/// mutated.  Stale views always fail loudly; they never yield bytes.
#[derive(Clone, Copy, Debug, PartialEq, Eq, Structural)]
pub struct InvalidatedView;

/// An owned, mutable byte buffer with a version stamp.  Every mutating
/// operation advances the stamp, which invalidates all views taken earlier.
pub struct Buffer {
    data: Vec<u8>,
    version: u64,
}

/// A non-owning descriptor of a sub-range of a [`Buffer`]: a start offset,
/// a length, and the buffer's version stamp at creation time.  It holds no
/// bytes of its own; reading goes back to the buffer and is refused once the
/// buffer has mutated.
#[derive(Clone, Copy, Debug, PartialEq, Eq, Structural)]
pub struct TokenView {
    pub start: usize,
    pub len: usize,
    pub stamp: u64,
}

impl Buffer {
    /// The bytes currently stored.
    pub closed spec fn bytes(&self) -> Seq<u8> {
        self.data@
    }

    /// The current version stamp.
    pub closed spec fn stamp(&self) -> u64 {
        self.version
    }

    /// Creates an empty buffer.
    pub fn new() -> (b: Buffer)
        ensures
            b.bytes() == Seq::<u8>::empty(),
            b.stamp() == 0,
    {
        Buffer { data: Vec::new(), version: 0 }
    }

    /// Creates a buffer holding the given bytes.
    pub fn from_bytes(data: Vec<u8>) -> (b: Buffer)
        ensures
            b.bytes() == data@,
            b.stamp() == 0,
    {
        Buffer { data, version: 0 }
    }

    /// The number of bytes stored.
    pub fn len(&self) -> (n: usize)
        ensures
            n == self.bytes().len(),
    {
        self.data.len()
    }

    /// The current version stamp, for callers that must check view validity
    /// before reading.
    pub fn version(&self) -> (v: u64)
        ensures
            v == self.stamp(),
    {
        self.version
    }

    /// Appends one byte and advances the version stamp.
    pub fn push(&mut self, byte: u8)
        requires
            old(self).stamp() < u64::MAX,
        ensures
            final(self).bytes() == old(self).bytes().push(byte),
            final(self).stamp() == old(self).stamp() + 1,
    {
        self.data.push(byte);
        self.version = self.version + 1;
    }

    /// Empties the buffer and advances the version stamp.
    pub fn clear(&mut self)
        requires
            old(self).stamp() < u64::MAX,
        ensures
            final(self).bytes() == Seq::<u8>::empty(),
            final(self).stamp() == old(self).stamp() + 1,
    {
        self.data.clear();
        self.version = self.version + 1;
    }

    /// Keeps the first `len` bytes (all of them when `len` exceeds the
    /// current length) and advances the version stamp.
    pub fn truncate(&mut self, len: usize)
        requires
            old(self).stamp() < u64::MAX,
        ensures
            final(self).bytes() == if len <= old(self).bytes().len() {
                old(self).bytes().subrange(0, len as int)
            } else {
                old(self).bytes()
            },
            final(self).stamp() == old(self).stamp() + 1,
    {
        self.data.truncate(len);
        self.version = self.version + 1;
    }
}

/// Holds when `end` is where the first token of `bytes` stops under `pred`:
/// no byte before `end` is a delimiter, and the byte at `end` — if there is
/// one — is.  Exactly one `end` satisfies this for given `bytes` and `pred`
/// (see [`lemma_token_end_unique`]).
pub open spec fn is_token_end<P: DelimiterPredicate>(pred: &P, bytes: Seq<u8>, end: int) -> bool {
    &&& 0 <= end <= bytes.len()
    &&& (forall|j: int| 0 <= j < end ==> !pred.spec_delimits(bytes[j]))
    &&& (end < bytes.len() ==> pred.spec_delimits(bytes[end]))
}

/// Scans `buffer` left to right and returns a view of its first token: the
/// prefix up to (not including) the first byte that `is_delimiter` matches,
/// or the whole buffer when no byte matches.  The view is stamped with the
/// buffer's current version.
pub fn first_token<P: DelimiterPredicate>(buffer: &Buffer, is_delimiter: &P) -> (v: TokenView)
    ensures
        v.start == 0,
        v.stamp == buffer.stamp(),
        is_token_end(is_delimiter, buffer.bytes(), v.len as int),
{
    let n = buffer.data.len();
    let mut i: usize = 0;
    while i < n
        invariant
            i <= n,
            n == buffer.bytes().len(),
            forall|j: int| 0 <= j < i ==> !is_delimiter.spec_delimits(buffer.bytes()[j]),
        decreases n - i,
    {
        if is_delimiter.delimits(buffer.data[i]) {
            return TokenView { start: 0, len: i, stamp: buffer.version };
        }
        i = i + 1;
    }
    TokenView { start: 0, len: n, stamp: buffer.version }
}

impl TokenView {
    /// Reads the bytes this view describes, provided the buffer has not
    /// mutated since the view was made; otherwise reports
    /// [`InvalidatedView`].  The precondition asks only that a view carrying
    /// the buffer's current stamp lies within bounds, which holds of every
    /// view produced by [`first_token`] on that buffer.
    pub fn read<'a>(&self, buffer: &'a Buffer) -> (r: Result<&'a [u8], InvalidatedView>)
        requires
            self.stamp == buffer.stamp() ==> self.start + self.len <= buffer.bytes().len(),
        ensures
            r is Ok <==> self.stamp == buffer.stamp(),
            r matches Ok(bytes) ==> bytes@ == buffer.bytes().subrange(
                self.start as int,
                self.start + self.len,
            ),
    {
        if self.stamp == buffer.version {
            proof {
                // the stored bytes fit in a vector, so their count fits usize
                // and the end offset below cannot overflow
                vstd::std_specs::vec::axiom_spec_len(&buffer.data);
            }
            let end = self.start + self.len;
            Ok(slice_subrange(buffer.data.as_slice(), self.start, end))
        } else {
            Err(InvalidatedView)
        }
    }
}

/// Law: the token end of a buffer under a predicate is unique.
pub proof fn lemma_token_end_unique<P: DelimiterPredicate>(
    pred: &P,
    bytes: Seq<u8>,
    e1: int,
    e2: int,
)
    requires
        is_token_end(pred, bytes, e1),
        is_token_end(pred, bytes, e2),
    ensures
        e1 == e2,
{
    if e1 < e2 {
        assert(!pred.spec_delimits(bytes[e1]));
        assert(pred.spec_delimits(bytes[e1]));
    }
    if e2 < e1 {
        assert(!pred.spec_delimits(bytes[e2]));
        assert(pred.spec_delimits(bytes[e2]));
    }
}

/// Law: extracting the first token twice from the same unmutated buffer
/// yields two identical views — same offset, length and stamp.
pub proof fn lemma_first_token_idempotent<P: DelimiterPredicate>(
    pred: &P,
    buffer: &Buffer,
    v1: TokenView,
    v2: TokenView,
)
    requires
        v1.start == 0 && v1.stamp == buffer.stamp() && is_token_end(
            pred,
            buffer.bytes(),
            v1.len as int,
        ),
        v2.start == 0 && v2.stamp == buffer.stamp() && is_token_end(
            pred,
            buffer.bytes(),
            v2.len as int,
        ),
    ensures
        v1 == v2,
{
    lemma_token_end_unique(pred, buffer.bytes(), v1.len as int, v2.len as int);
}

/// Law: on an empty buffer every predicate yields the empty view.
pub proof fn lemma_token_end_empty<P: DelimiterPredicate>(pred: &P, bytes: Seq<u8>, end: int)
    requires
        bytes.len() == 0,
        is_token_end(pred, bytes, end),
    ensures
        end == 0,
{
}

/// Law: when no byte of the buffer is a delimiter, the first token spans
/// the entire buffer.
pub proof fn lemma_token_end_no_delimiter<P: DelimiterPredicate>(
    pred: &P,
    bytes: Seq<u8>,
    end: int,
)
    requires
        forall|j: int| 0 <= j < bytes.len() ==> !pred.spec_delimits(bytes[j]),
        is_token_end(pred, bytes, end),
    ensures
        end == bytes.len(),
{
    if end < bytes.len() {
        assert(!pred.spec_delimits(bytes[end]));
    }
}

} // verus!
