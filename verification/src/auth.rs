//! The API key that guards the station and admin endpoints.

use vstd::prelude::*;
use crate::text::str_eq;

verus! {

/// The request header that carries the API key.
pub const API_KEY_HEADER: &'static str = "x-api-key";

/// The status of a request refused for a missing or wrong key.
pub const UNAUTHORIZED: u16 = 401;

/// Admits a request when it carries exactly the expected key and refuses it
/// with status 401 otherwise.
pub fn check_api_key(provided: Option<&str>, expected: &str) -> (r: Result<(), u16>)
    ensures
        r is Ok <==> (provided is Some && provided->0@ == expected@),
        r is Err ==> r->Err_0 == UNAUTHORIZED,
{
    match provided {
        Some(key) => if str_eq(key, expected) {
            Ok(())
        } else {
            Err(UNAUTHORIZED)
        },
        None => Err(UNAUTHORIZED),
    }
}

} // verus!
