//! Decoding of the NUL-terminated byte buffers in which names and messages
//! arrive.
//!
//! A buffer is scanned for its first NUL byte, never past its own end, and the
//! bytes before that terminator are validated as UTF-8. A buffer that fails
//! either step is refused: it means that the layout assumed for it is not the
//! one the reporting side used.

use core::str::Utf8Error;
use vstd::prelude::*;
use vstd::slice::slice_subrange;
use vstd::string::StringSliceAdditionalSpecFns;
use vstd::utf8::{
    decode_utf8, encode_utf8, encode_utf8_decode_utf8, encode_utf8_valid_utf8, is_ascii_chars,
    is_ascii_chars_encode_utf8, valid_utf8,
};

verus! {

/// Why a buffer could not be decoded.
#[derive(Debug, Clone, Copy, PartialEq, Eq, Structural)]
pub enum DecodeError {
    /// The buffer holds no NUL byte.
    NotTerminated,
    /// The bytes before the first NUL byte are not valid UTF-8.
    InvalidUtf8,
}

/// `n` is the index of the first NUL byte of `bytes`.
pub open spec fn is_terminator(bytes: Seq<u8>, n: int) -> bool {
    &&& 0 <= n < bytes.len()
    &&& bytes[n] == 0
    &&& forall|i: int| 0 <= i < n ==> bytes[i] != 0
}

/// `bytes` holds a NUL byte.
pub open spec fn terminated(bytes: Seq<u8>) -> bool {
    exists|n: int| is_terminator(bytes, n)
}

/// The index of the first NUL byte of `bytes`, where there is one.
pub open spec fn terminator(bytes: Seq<u8>) -> int
    recommends
        terminated(bytes),
{
    choose|n: int| is_terminator(bytes, n)
}

/// The bytes of `bytes` that stand before its first NUL byte.
pub open spec fn payload(bytes: Seq<u8>) -> Seq<u8>
    recommends
        terminated(bytes),
{
    bytes.subrange(0, terminator(bytes))
}

/// What a buffer decodes to: the text that its payload encodes, or the reason
/// why it has none. A missing terminator is reported before the payload is
/// looked at.
pub open spec fn decoded(bytes: Seq<u8>) -> Result<Seq<char>, DecodeError> {
    if !terminated(bytes) {
        Err(DecodeError::NotTerminated)
    } else if !valid_utf8(payload(bytes)) {
        Err(DecodeError::InvalidUtf8)
    } else {
        Ok(decode_utf8(payload(bytes)))
    }
}

/// `core::str::Utf8Error`, the error of `core::str::from_utf8`. Nothing is
/// read from it: a value of it only says that the bytes were refused.
#[verifier::external_type_specification]
#[verifier::external_body]
pub struct ExUtf8Error(Utf8Error);

/// `core::str::from_utf8` accepts exactly the byte slices that are valid
/// UTF-8, and the string slice it returns is made of the bytes it was given.
pub assume_specification[ core::str::from_utf8 ](v: &[u8]) -> (r: Result<&str, Utf8Error>)
    ensures
        r is Ok <==> valid_utf8(v@),
        r matches Ok(s) ==> s.spec_bytes() == v@,
;

/// A buffer has one first NUL byte at most.
pub proof fn lemma_terminator_unique(bytes: Seq<u8>, n: int)
    requires
        is_terminator(bytes, n),
    ensures
        terminated(bytes),
        terminator(bytes) == n,
        payload(bytes) == bytes.subrange(0, n),
{
    let m = terminator(bytes);
    assert(is_terminator(bytes, m));
    if m < n {
        assert(bytes[m] != 0);
    } else if n < m {
        assert(bytes[n] != 0);
    }
}

/// A buffer without any NUL byte has no terminator.
pub proof fn lemma_no_terminator(bytes: Seq<u8>)
    requires
        forall|i: int| 0 <= i < bytes.len() ==> bytes[i] != 0,
    ensures
        !terminated(bytes),
        decoded(bytes) == Err::<Seq<char>, DecodeError>(DecodeError::NotTerminated),
{
    if terminated(bytes) {
        let m = terminator(bytes);
        assert(is_terminator(bytes, m));
        assert(bytes[m] != 0);
    }
}

/// A buffer that starts with its terminator decodes to the empty text.
pub proof fn lemma_empty_text(bytes: Seq<u8>)
    requires
        bytes.len() > 0,
        bytes[0] == 0,
    ensures
        decoded(bytes) == Ok::<Seq<char>, DecodeError>(Seq::empty()),
{
    lemma_terminator_unique(bytes, 0);
    assert(payload(bytes) =~= Seq::<u8>::empty());
    assert(decode_utf8(Seq::<u8>::empty()) =~= Seq::<char>::empty());
}

/// What follows the terminator does not count: two buffers that agree up to
/// their common first NUL byte decode alike.
pub proof fn lemma_tail_ignored(a: Seq<u8>, b: Seq<u8>, n: int)
    requires
        is_terminator(a, n),
        is_terminator(b, n),
        forall|i: int| 0 <= i < n ==> a[i] == b[i],
    ensures
        decoded(a) == decoded(b),
{
    lemma_terminator_unique(a, n);
    lemma_terminator_unique(b, n);
    assert(a.subrange(0, n) =~= b.subrange(0, n));
}

/// The text whose characters are the given bytes, one for one.
pub open spec fn ascii_text(bytes: Seq<u8>) -> Seq<char> {
    Seq::new(bytes.len(), |i: int| bytes[i] as char)
}

/// A terminated buffer whose payload is plain ASCII decodes to that payload,
/// one character for each byte.
pub proof fn lemma_ascii_text(bytes: Seq<u8>, n: int)
    requires
        is_terminator(bytes, n),
        forall|i: int| 0 <= i < n ==> bytes[i] < 0x80,
    ensures
        decoded(bytes) == Ok::<Seq<char>, DecodeError>(ascii_text(bytes.subrange(0, n))),
{
    lemma_terminator_unique(bytes, n);
    let body = bytes.subrange(0, n);
    let text = ascii_text(body);
    assert forall|i: int| 0 <= i < text.len() implies '\0' <= #[trigger] text[i] <= '\u{7f}' by {
        assert(body[i] == bytes[i]);
    }
    assert(is_ascii_chars(text));
    is_ascii_chars_encode_utf8(text);
    assert forall|i: int| 0 <= i < n implies encode_utf8(text)[i] == body[i] by {
        assert(text[i] as u8 == encode_utf8(text)[i]);
        assert(body[i] == bytes[i]);
    }
    assert(encode_utf8(text) =~= body);
    encode_utf8_valid_utf8(text);
    encode_utf8_decode_utf8(text);
}

/// Finds the first NUL byte of `buf`, looking at no byte outside it.
pub fn find_terminator(buf: &[u8]) -> (found: Option<usize>)
    ensures
        found is Some <==> terminated(buf@),
        found matches Some(n) ==> is_terminator(buf@, n as int) && n == terminator(buf@),
{
    let mut i: usize = 0;
    while i < buf.len()
        invariant
            i <= buf@.len(),
            forall|k: int| 0 <= k < i ==> buf@[k] != 0,
        decreases buf@.len() - i,
    {
        if buf[i] == 0 {
            proof {
                lemma_terminator_unique(buf@, i as int);
            }
            return Some(i);
        }
        i += 1;
    }
    proof {
        lemma_no_terminator(buf@);
    }
    None
}

/// Decodes the text of a NUL-terminated buffer without copying it.
///
/// Succeeds exactly when `buf` holds a NUL byte and the bytes before the
/// first one are valid UTF-8; the text is what those bytes encode.
pub fn decode_str(buf: &[u8]) -> (text: Result<&str, DecodeError>)
    ensures
        match text {
            Ok(s) => decoded(buf@) == Ok::<Seq<char>, DecodeError>(s@),
            Err(e) => decoded(buf@) == Err::<Seq<char>, DecodeError>(e),
        },
{
    match find_terminator(buf) {
        None => Err(DecodeError::NotTerminated),
        Some(n) => {
            let body = slice_subrange(buf, 0, n);
            match core::str::from_utf8(body) {
                Ok(s) => {
                    proof {
                        encode_utf8_decode_utf8(s@);
                    }
                    Ok(s)
                },
                Err(_) => Err(DecodeError::InvalidUtf8),
            }
        },
    }
}

/// Decodes the text of a NUL-terminated buffer into an owned string.
///
/// Succeeds exactly when `buf` holds a NUL byte and the bytes before the
/// first one are valid UTF-8; the text is what those bytes encode.
pub fn decode_string(buf: &[u8]) -> (text: Result<String, DecodeError>)
    ensures
        match text {
            Ok(s) => decoded(buf@) == Ok::<Seq<char>, DecodeError>(s@),
            Err(e) => decoded(buf@) == Err::<Seq<char>, DecodeError>(e),
        },
{
    match decode_str(buf) {
        Ok(s) => Ok(s.to_owned()),
        Err(e) => Err(e),
    }
}

} // verus!
