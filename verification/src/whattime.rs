//! The uptime line, as the formatter wrote it.

use crate::cstr::{decode_str, decode_string, decoded, DecodeError};
use vstd::prelude::*;

verus! {

/// Decodes the line that the uptime formatter wrote, without copying it.
///
/// The text is the formatter's, character for character, whichever of its two
/// forms was asked for. Succeeds exactly when `raw` holds a NUL byte and the
/// bytes before the first one are valid UTF-8.
pub fn get_uptime_str(raw: &[u8]) -> (line: Result<&str, DecodeError>)
    ensures
        match line {
            Ok(s) => decoded(raw@) == Ok::<Seq<char>, DecodeError>(s@),
            Err(e) => decoded(raw@) == Err::<Seq<char>, DecodeError>(e),
        },
{
    decode_str(raw)
}

/// Decodes the line that the uptime formatter wrote into an owned string.
///
/// The text is the formatter's, character for character, whichever of its two
/// forms was asked for. Succeeds exactly when `raw` holds a NUL byte and the
/// bytes before the first one are valid UTF-8.
pub fn get_uptime_string(raw: &[u8]) -> (line: Result<String, DecodeError>)
    ensures
        match line {
            Ok(s) => decoded(raw@) == Ok::<Seq<char>, DecodeError>(s@),
            Err(e) => decoded(raw@) == Err::<Seq<char>, DecodeError>(e),
        },
{
    decode_string(raw)
}

} // verus!
