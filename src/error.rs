use vstd::prelude::*;

verus! {

/// Why a lookup failed.
#[derive(PartialEq, Eq, Structural, Debug, Clone, Copy)]
pub enum LookupError {
    /// The base URL of the service is not configured.
    Configuration,
    /// The base URL and the IP do not form a valid URL.
    UrlConstruction,
    /// The request could not be sent or its answer not received.
    Transport,
    /// The answer is not JSON of the expected shape.
    Decode,
}

} // verus!
