use vstd::prelude::*;
use crate::top::INTERNAL_SERVER_ERROR;

verus! {

#[verifier::external_type_specification]
#[verifier::external_body]
pub struct ExJsonValue(serde_json::Value);

#[verifier::external_type_specification]
#[verifier::external_body]
pub struct ExJsonError(serde_json::Error);

/// Upstream endpoint of the current user's profile.
pub const PROFILE_URL: &'static str = "https://api.spotify.com/v1/me";

/// Whether serde_json decodes `text` as one JSON value.
pub uninterp spec fn json_accepts(text: Seq<char>) -> bool;

/// Relies on `serde_json::from_str::<serde_json::Value>`: it succeeds exactly
/// on the texts that serde_json accepts as one JSON value, and that verdict
/// depends on the text alone.
#[verifier::external_body]
fn decode_json(text: &str) -> (r: Result<serde_json::Value, serde_json::Error>)
    ensures
        r is Ok <==> json_accepts(text@),
{
    serde_json::from_str::<serde_json::Value>(text)
}

/// Reply of the profile route for a decoded upstream body: the JSON value
/// itself, or an internal server error when it did not decode.
pub fn profile_outcome(decoded: Result<serde_json::Value, serde_json::Error>) -> (r: Result<
    serde_json::Value,
    u16,
>)
    ensures
        r is Ok <==> decoded is Ok,
        decoded matches Ok(v) ==> r == Ok::<serde_json::Value, u16>(v),
        r matches Err(code) ==> code == INTERNAL_SERVER_ERROR,
{
    match decoded {
        Ok(v) => Ok(v),
        Err(_) => Err(INTERNAL_SERVER_ERROR),
    }
}

/// Reply of the profile route for the upstream body `body`: passed on as
/// JSON once it is known to be JSON, else an internal server error.
pub fn profile_reply(body: &str) -> (r: Result<serde_json::Value, u16>)
    ensures
        r is Ok <==> json_accepts(body@),
        r matches Err(code) ==> code == INTERNAL_SERVER_ERROR,
{
    profile_outcome(decode_json(body))
}

} // verus!
