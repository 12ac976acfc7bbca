//! An owned, fixed-capacity, zero-initialized byte buffer for write-into
//! style foreign routines.
//!
//! The buffer's logical content is the prefix that precedes the first zero
//! byte (or the whole buffer when no zero byte is present). It is
//! recomputed on every extraction, never cached, because the foreign
//! writer may change the bytes between calls. Extraction validates the
//! content as UTF-8 and offers it as a borrow, as a copy, or by consuming
//! the buffer.

use crate::text::{bytes_as_str, bytes_into_string};
use vstd::prelude::*;
use vstd::slice::{slice_subrange, slice_to_vec};
use vstd::utf8::{decode_utf8, valid_utf8};

verus! {

/// Why a buffer operation was refused.
#[derive(Clone, Copy, Debug, PartialEq, Eq, Structural)]
pub enum BufferError {
    /// The requested capacity exceeds the largest length a foreign write
    /// call can address (a 32-bit signed length).
    CapacityTooLarge,
    /// The bytes before the terminator are not valid UTF-8.
    InvalidUtf8,
}

/// A fixed-capacity byte buffer, fully zeroed at construction, meant to be
/// filled in place by a foreign writer and read back as text.
pub struct CStrBuf {
    vec: Vec<u8>,
}

/// The offset of the first zero byte in `s`, or `s.len()` if none occurs.
pub open spec fn logical_len(s: Seq<u8>) -> nat
    decreases s.len(),
{
    if s.len() == 0 {
        0
    } else if s[0] == 0 {
        0
    } else {
        (1 + logical_len(s.drop_first())) as nat
    }
}

/// The bytes before the first zero byte: the buffer's logical content.
pub open spec fn content(s: Seq<u8>) -> Seq<u8> {
    s.subrange(0, logical_len(s) as int)
}

/// What extraction reads out of bytes `s`: the decoded content, or nothing
/// when the content is not valid UTF-8. All three extraction modes return
/// exactly this.
pub open spec fn extracted_text(s: Seq<u8>) -> Option<Seq<char>> {
    if valid_utf8(content(s)) {
        Some(decode_utf8(content(s)))
    } else {
        None
    }
}

/// `logical_len` is within bounds, scans past no zero byte, and stops at
/// one unless it ran off the end.
pub proof fn lemma_logical_len_bounds(s: Seq<u8>)
    ensures
        logical_len(s) <= s.len(),
        forall|j: int| 0 <= j < logical_len(s) ==> s[j] != 0,
        logical_len(s) < s.len() ==> s[logical_len(s) as int] == 0,
    decreases s.len(),
{
    if s.len() == 0 || s[0] == 0 {
    } else {
        lemma_logical_len_bounds(s.drop_first());
        assert forall|j: int| 0 <= j < logical_len(s) implies s[j] != 0 by {
            if j > 0 {
                assert(s.drop_first()[j - 1] == s[j]);
            }
        }
    }
}

/// A scan that saw no zero byte before position `n`, and a zero byte or
/// the end at `n`, found the logical length.
pub proof fn lemma_logical_len_from_scan(s: Seq<u8>, n: nat)
    requires
        n <= s.len(),
        forall|j: int| 0 <= j < n ==> s[j] != 0,
        n < s.len() ==> s[n as int] == 0,
    ensures
        logical_len(s) == n,
    decreases n,
{
    if n == 0 {
    } else {
        assert(s[0] != 0);
        let t = s.drop_first();
        assert forall|j: int| 0 <= j < n - 1 implies t[j] != 0 by {
            assert(t[j] == s[j + 1]);
        }
        assert(n - 1 < t.len() ==> t[n - 1] == s[n as int]);
        lemma_logical_len_from_scan(t, (n - 1) as nat);
    }
}

/// Relies on `memchr::memchr`: the index of the first occurrence of
/// `needle` in `haystack`, or nothing when it does not occur.
#[verifier::external_body]
fn first_byte_position(needle: u8, haystack: &[u8]) -> (r: Option<usize>)
    ensures
        r matches Some(i) ==> i < haystack@.len() && haystack@[i as int] == needle && forall|
            j: int,
        | 0 <= j < i ==> haystack@[j] != needle,
        r is None ==> forall|j: int| 0 <= j < haystack@.len() ==> haystack@[j] != needle,
{
    memchr::memchr(needle, haystack)
}

impl View for CStrBuf {
    type V = Seq<u8>;

    closed spec fn view(&self) -> Seq<u8> {
        self.vec@
    }
}

impl CStrBuf {
    /// The capacity never exceeds what a foreign write call can address.
    pub open spec fn wf(&self) -> bool {
        self@.len() <= i32::MAX
    }

    /// Builds a buffer of `len` zero bytes. The foreign side takes lengths
    /// as 32-bit signed integers, so a capacity beyond `i32::MAX` is
    /// refused at construction, before anything is allocated.
    pub fn new(len: usize) -> (r: Result<CStrBuf, BufferError>)
        ensures
            len <= i32::MAX ==> (r matches Ok(b) && b@ == Seq::new(len as nat, |i: int| 0u8)
                && b.wf()),
            len > i32::MAX ==> (r matches Err(e) && e == BufferError::CapacityTooLarge),
    {
        if len > (i32::MAX as usize) {
            Err(BufferError::CapacityTooLarge)
        } else {
            Ok(CStrBuf { vec: vec![0u8; len] })
        }
    }

    /// The whole region's length, as the foreign write call takes it.
    pub fn buffer_len(&self) -> (r: i32)
        requires
            self.wf(),
        ensures
            r == self@.len(),
    {
        self.vec.len() as i32
    }

    /// One byte of the region, as the foreign side would read it.
    pub fn read_byte(&self, i: usize) -> (r: u8)
        requires
            i < self@.len(),
        ensures
            r == self@[i as int],
    {
        self.vec[i]
    }

    /// Puts one byte into the region, as the foreign writer would.
    pub fn write_byte(&mut self, i: usize, b: u8)
        requires
            i < old(self)@.len(),
        ensures
            final(self)@ == old(self)@.update(i as int, b),
    {
        self.vec[i] = b;
    }

    /// A successful foreign write: fills a prefix with `data` and a
    /// terminating zero and leaves the rest of the region as it was, so
    /// the buffer can be reused across calls without reallocation. A
    /// failed foreign write is modeled by not calling this at all.
    pub fn accept_write(&mut self, data: &[u8])
        requires
            data@.len() < old(self)@.len(),
        ensures
            final(self)@ == data@ + seq![0u8] + old(self)@.skip(data@.len() as int + 1),
    {
        let n = data.len();
        let mut i: usize = 0;
        while i < n
            invariant
                i <= n,
                n < old(self)@.len(),
                n == data@.len(),
                self@.len() == old(self)@.len(),
                forall|j: int| 0 <= j < i ==> self@[j] == data@[j],
                forall|j: int| i <= j < self@.len() ==> self@[j] == old(self)@[j],
            decreases n - i,
        {
            self.write_byte(i, data[i]);
            i += 1;
        }
        self.write_byte(n, 0);
        proof {
            assert(self@ =~= data@ + seq![0u8] + old(self)@.skip(data@.len() as int + 1));
        }
    }

    /// The logical length: the offset of the first zero byte, or the whole
    /// capacity when no zero byte is present. Recomputed on every call,
    /// since the foreign writer may have changed the bytes.
    pub fn strlen(&self) -> (r: usize)
        ensures
            r == logical_len(self@),
    {
        let r = match first_byte_position(0, self.vec.as_slice()) {
            Some(n) => n,
            None => self.vec.len(),
        };
        proof {
            lemma_logical_len_from_scan(self@, r as nat);
        }
        r
    }

    /// Copies the content out as an owned string; the buffer is untouched
    /// and reusable afterwards.
    pub fn to_string(&self) -> (r: Result<String, BufferError>)
        ensures
            (r is Ok) == (extracted_text(self@) is Some),
            r matches Ok(s) ==> Some(s@) == extracted_text(self@),
            r matches Err(e) ==> e == BufferError::InvalidUtf8,
    {
        proof {
            lemma_logical_len_bounds(self@);
        }
        let len = self.strlen();
        let copied: Vec<u8> = slice_to_vec(slice_subrange(self.vec.as_slice(), 0, len));
        match bytes_into_string(copied) {
            Ok(s) => Ok(s),
            Err(_) => Err(BufferError::InvalidUtf8),
        }
    }

    /// Consumes the buffer, truncating its storage to the content and
    /// returning it as an owned string; the capacity beyond the content is
    /// discarded.
    pub fn into_string(self) -> (r: Result<String, BufferError>)
        ensures
            (r is Ok) == (extracted_text(self@) is Some),
            r matches Ok(s) ==> Some(s@) == extracted_text(self@),
            r matches Err(e) ==> e == BufferError::InvalidUtf8,
    {
        proof {
            lemma_logical_len_bounds(self@);
        }
        let len = self.strlen();
        let CStrBuf { vec: mut v } = self;
        v.truncate(len);
        match bytes_into_string(v) {
            Ok(s) => Ok(s),
            Err(_) => Err(BufferError::InvalidUtf8),
        }
    }

    /// Borrows the content as text without copying. The view is valid only
    /// until the next write into the buffer or the buffer's destruction.
    pub fn to_str<'a>(&'a self) -> (r: Result<&'a str, BufferError>)
        ensures
            (r is Ok) == (extracted_text(self@) is Some),
            r matches Ok(s) ==> Some(s@) == extracted_text(self@),
            r matches Err(e) ==> e == BufferError::InvalidUtf8,
    {
        proof {
            lemma_logical_len_bounds(self@);
        }
        let len = self.strlen();
        match bytes_as_str(slice_subrange(self.vec.as_slice(), 0, len)) {
            Some(s) => Ok(s),
            None => Err(BufferError::InvalidUtf8),
        }
    }
}

/// Extraction reads the buffer's bytes and nothing else: two extractions
/// with no intervening write return the same content, and the three
/// extraction modes (borrow, copy, consume) agree on it.
pub proof fn lemma_extraction_idempotent(
    s: Seq<u8>,
    r1: Option<Seq<char>>,
    r2: Option<Seq<char>>,
)
    requires
        r1 == extracted_text(s),
        r2 == extracted_text(s),
    ensures
        r1 == r2,
{
}

/// After a successful foreign write of zero-free data, the buffer's
/// content is exactly that data: however long the previous content was, no
/// stale byte beyond the new terminator leaks into an extraction.
pub proof fn lemma_write_then_extract(prev: Seq<u8>, data: Seq<u8>)
    requires
        data.len() < prev.len(),
        forall|j: int| 0 <= j < data.len() ==> data[j] != 0,
    ensures
        logical_len(data + seq![0u8] + prev.skip(data.len() as int + 1)) == data.len(),
        content(data + seq![0u8] + prev.skip(data.len() as int + 1)) == data,
        extracted_text(data + seq![0u8] + prev.skip(data.len() as int + 1)) == (if valid_utf8(
            data,
        ) {
            Some(decode_utf8(data))
        } else {
            None
        }),
{
    let s = data + seq![0u8] + prev.skip(data.len() as int + 1);
    assert(s[data.len() as int] == 0);
    lemma_logical_len_from_scan(s, data.len());
    assert(content(s) =~= data);
}

} // verus!
