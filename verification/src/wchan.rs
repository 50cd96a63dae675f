//! The kernel symbol in which a process is blocked.

use crate::cstr::{decode_str, decode_string, decoded, lemma_empty_text, DecodeError};
use vstd::prelude::*;

verus! {

/// Decodes the symbol that the wait-channel lookup returned, without copying
/// it.
///
/// Succeeds exactly when `raw` holds a NUL byte and the bytes before the
/// first one are valid UTF-8. A lookup that found nothing arrives as a buffer
/// that starts with its terminator, and gives the empty text.
pub fn lookup_wchan_str(raw: &[u8]) -> (symbol: Result<&str, DecodeError>)
    ensures
        match symbol {
            Ok(s) => decoded(raw@) == Ok::<Seq<char>, DecodeError>(s@),
            Err(e) => decoded(raw@) == Err::<Seq<char>, DecodeError>(e),
        },
        raw@.len() > 0 && raw@[0] == 0 ==> symbol is Ok && symbol->Ok_0@.len() == 0,
{
    proof {
        if raw@.len() > 0 && raw@[0] == 0 {
            lemma_empty_text(raw@);
        }
    }
    decode_str(raw)
}

/// Decodes the symbol that the wait-channel lookup returned into an owned
/// string.
///
/// Succeeds exactly when `raw` holds a NUL byte and the bytes before the
/// first one are valid UTF-8. A lookup that found nothing arrives as a buffer
/// that starts with its terminator, and gives the empty string.
pub fn lookup_wchan_string(raw: &[u8]) -> (symbol: Result<String, DecodeError>)
    ensures
        match symbol {
            Ok(s) => decoded(raw@) == Ok::<Seq<char>, DecodeError>(s@),
            Err(e) => decoded(raw@) == Err::<Seq<char>, DecodeError>(e),
        },
        raw@.len() > 0 && raw@[0] == 0 ==> symbol is Ok && symbol->Ok_0@.len() == 0,
{
    proof {
        if raw@.len() > 0 && raw@[0] == 0 {
            lemma_empty_text(raw@);
        }
    }
    decode_string(raw)
}

} // verus!
