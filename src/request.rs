use vstd::prelude::*;
use vstd::string::{StrSliceExecFns, StringExecFns};

use crate::error::LookupError;

verus! {

/// The serialization of the URL that `Url::parse` makes of `text`, or `None`
/// where it refuses the text.
pub uninterp spec fn parsed_url(text: Seq<char>) -> Option<Seq<char>>;

/// The serialization of the URL `url` after `Url::set_query(Some(query))`.
pub uninterp spec fn url_with_query(url: Seq<char>, query: Seq<char>) -> Seq<char>;

/// Relies on `url::Url::parse` (re-exported by reqwest): parses an absolute
/// URL, and a URL's own serialization parses back to the same serialization
/// (`Url::check_invariants` asserts it).
#[verifier::external_body]
fn parse_url(text: &str) -> (r: Option<String>)
    ensures
        match r {
            Some(u) => parsed_url(text@) == Some(u@) && parsed_url(u@) == Some(u@),
            None => parsed_url(text@) is None,
        },
{
    reqwest::Url::parse(text).ok().map(String::from)
}

/// Relies on `url::Url::set_query`: replaces the query of a parsed URL. The
/// URL is handed over as its serialization, which parses back to itself.
/// `set_query` panics where a URL with a fragment grows past `u32::MAX`
/// bytes; the bound keeps it below that, each character of the query taking
/// at most four bytes, each of them percent-encoded in three.
#[verifier::external_body]
fn replace_query(url: &str, query: &str) -> (r: String)
    requires
        parsed_url(url@) == Some(url@),
        query_fits(url@, query@),
    ensures
        r@ == url_with_query(url@, query@),
{
    let mut u = reqwest::Url::parse(url).unwrap();
    u.set_query(Some(query));
    String::from(u)
}

/// The name of the query parameter that carries the API key.
pub open spec fn api_key_name() -> Seq<char> {
    seq!['a', 'p', 'i', 'k', 'e', 'y']
}

/// The text that the base URL and the IP are joined into.
pub open spec fn joined_path(base: Seq<char>, ip: Seq<char>) -> Seq<char> {
    base + seq!['/'] + ip
}

/// The query that carries the API key.
pub open spec fn key_query(key: Seq<char>) -> Seq<char> {
    api_key_name() + seq!['='] + key
}

/// A URL whose query is replaced by `query` stays within `u32::MAX` bytes.
pub open spec fn query_fits(url: Seq<char>, query: Seq<char>) -> bool {
    4 * url.len() + 1 + 12 * query.len() <= 4294967295
}

/// The text of an optional string.
pub open spec fn base_text(base: Option<&str>) -> Option<Seq<char>> {
    match base {
        Some(b) => Some(b@),
        None => None,
    }
}

/// The text of a result that holds a string.
pub open spec fn text_result(r: Result<String, LookupError>) -> Result<Seq<char>, LookupError> {
    match r {
        Ok(s) => Ok(s@),
        Err(e) => Err(e),
    }
}

/// What a request for `ip` with `key` against the base URL `base` yields.
pub open spec fn request_url_of(
    base: Option<Seq<char>>,
    ip: Seq<char>,
    key: Seq<char>,
) -> Result<Seq<char>, LookupError> {
    match base {
        None => Err(LookupError::Configuration),
        Some(b) => match parsed_url(joined_path(b, ip)) {
            None => Err(LookupError::UrlConstruction),
            Some(u) => if query_fits(u, key_query(key)) {
                Ok(url_with_query(u, key_query(key)))
            } else {
                Err(LookupError::UrlConstruction)
            },
        },
    }
}

/// Joins the base URL and the IP with a `/`.
pub fn join_path(base: &str, ip: &str) -> (r: String)
    ensures
        r@ == joined_path(base@, ip@),
{
    let mut r = base.to_owned();
    r.append("/");
    r.append(ip);
    proof {
        reveal_strlit("/");
        assert(r@ =~= joined_path(base@, ip@));
    }
    r
}

/// The query `apikey=<key>`.
pub fn api_key_query(key: &str) -> (r: String)
    ensures
        r@ == key_query(key@),
{
    let mut r = String::from_str("apikey=");
    r.append(key);
    proof {
        reveal_strlit("apikey=");
        assert(r@ =~= key_query(key@));
    }
    r
}

/// Whether a URL of `url_len` characters with a query of `query_len`
/// characters meets `query_fits`.
fn fits_u32(url_len: usize, query_len: usize) -> (r: bool)
    ensures
        r == (4 * url_len + 1 + 12 * query_len <= 4294967295),
{
    if url_len > 1073741823 || query_len > 357913941 {
        false
    } else {
        4 * (url_len as u64) + 1 + 12 * (query_len as u64) <= 4294967295
    }
}

/// The URL `<base>/<ip>?apikey=<key>`, with any query of the joined URL
/// replaced. Fails with `Configuration` where no base URL is configured, and
/// with `UrlConstruction` where the joined text is no valid URL or the URL
/// with its query would outgrow `u32::MAX` bytes.
pub fn request_url(base: Option<&str>, ip: &str, key: &str) -> (r: Result<String, LookupError>)
    ensures
        text_result(r) == request_url_of(base_text(base), ip@, key@),
{
    match base {
        None => Err(LookupError::Configuration),
        Some(b) => {
            let joined = join_path(b, ip);
            match parse_url(joined.as_str()) {
                None => Err(LookupError::UrlConstruction),
                Some(u) => {
                    let query = api_key_query(key);
                    if fits_u32(u.as_str().unicode_len(), query.as_str().unicode_len()) {
                        Ok(replace_query(u.as_str(), query.as_str()))
                    } else {
                        Err(LookupError::UrlConstruction)
                    }
                },
            }
        },
    }
}

} // verus!
