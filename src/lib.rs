//! Client-side logic for an IP geolocation service: building the request
//! URL and decoding the JSON answer, either into a typed `Location` record or
//! into an open list of string fields.

pub mod error;
pub mod fallback;
pub mod json;
pub mod location;
pub mod request;

pub use error::LookupError;
pub use fallback::decode_fallback;
pub use location::{Location, decode_location};
pub use request::request_url;

use vstd::prelude::*;

verus! {

/// Without a configured base URL no request URL is made, whatever the IP and
/// the key: the lookup fails with `Configuration` before anything is sent.
pub proof fn lemma_missing_base_fails(ip: Seq<char>, key: Seq<char>)
    ensures
        request::request_url_of(None, ip, key) == Err::<Seq<char>, LookupError>(
            LookupError::Configuration,
        ),
{
}

/// A body that is no JSON object fails both decoders with `Decode`.
pub proof fn lemma_invalid_body_fails(
    body: Seq<char>,
    typed: Result<Location, LookupError>,
    open: Result<Vec<(String, String)>, LookupError>,
)
    requires
        json::json_members(body) is None,
        location::location_result(body, typed),
        fallback::fallback_result(body, open),
    ensures
        typed matches Err(e) && e == LookupError::Decode,
        open matches Err(e) && e == LookupError::Decode,
{
}

} // verus!
