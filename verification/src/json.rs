//! JSON text of strings, written by `serde_json`.
//!
//! Nothing here is proved: the contract below is taken on trust from the
//! source of `serde_json`, which `near_sdk` hands on under its own name.

use vstd::prelude::*;

verus! {

/// The error type of `serde_json`. A value of it is carried, never read.
#[verifier::external_type_specification]
#[verifier::external_body]
pub struct ExJsonError(near_sdk::serde_json::Error);

/// The JSON text that `serde_json::to_string` writes for the string `s`:
/// `s` between double quotes, with the characters escaped that JSON does not
/// take as they are. `None` where the call reports an error.
pub uninterp spec fn json_text(s: Seq<char>) -> Option<Seq<char>>;

/// Calls `serde_json::to_string` on a string.
///
/// Trusted: that what comes back depends on the characters of `s` alone, so
/// that it can go by the name [`json_text`]. Nothing is claimed of what the
/// text holds, nor that the call succeeds.
#[verifier::external_body]
pub(crate) fn to_json_text(s: &str) -> (r: Result<String, near_sdk::serde_json::Error>)
    ensures
        match r {
            Ok(text) => json_text(s@) == Some(text@),
            Err(_) => json_text(s@) is None,
        },
{
    near_sdk::serde_json::to_string(s)
}

} // verus!
