//! Names of users and groups, as the name cache hands them out.

use crate::cstr::{decode_string, decoded, DecodeError};
use vstd::prelude::*;

verus! {

/// Decodes the user name that the cache returned for a user id.
///
/// Succeeds exactly when `raw` holds a NUL byte and the bytes before the
/// first one are valid UTF-8. An empty name is a name like any other.
pub fn get_user(raw: &[u8]) -> (name: Result<String, DecodeError>)
    ensures
        match name {
            Ok(s) => decoded(raw@) == Ok::<Seq<char>, DecodeError>(s@),
            Err(e) => decoded(raw@) == Err::<Seq<char>, DecodeError>(e),
        },
{
    decode_string(raw)
}

/// Decodes the group name that the cache returned for a group id.
///
/// Succeeds exactly when `raw` holds a NUL byte and the bytes before the
/// first one are valid UTF-8. An empty name is a name like any other.
pub fn get_group(raw: &[u8]) -> (name: Result<String, DecodeError>)
    ensures
        match name {
            Ok(s) => decoded(raw@) == Ok::<Seq<char>, DecodeError>(s@),
            Err(e) => decoded(raw@) == Err::<Seq<char>, DecodeError>(e),
        },
{
    decode_string(raw)
}

} // verus!
