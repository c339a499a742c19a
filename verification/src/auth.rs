//! The shared-key check every data endpoint runs before anything else.
use vstd::prelude::*;

verus! {

/// Header the client must send; the edge WAF checks the same header, this is
/// the defense-in-depth check inside the worker itself.
pub const API_KEY_HEADER: &'static str = "x-api-key";

/// True exactly when a key was provided and it equals the configured one.
/// A missing header and a wrong key are the same outcome.
pub fn is_authorized(provided: Option<&str>, expected: &str) -> (ok: bool)
    ensures
        ok <==> (provided matches Some(key) && key@ == expected@),
{
    match provided {
        Some(key) => *key == *expected,
        None => false,
    }
}

} // verus!
