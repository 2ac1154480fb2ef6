//! The boundary to the URL machinery of outside crates.
//!
//! Building a request URL means parsing a base, percent-encoding query
//! pairs onto it, and checking the result as a request URI. What those
//! outside parsers produce is a function of their input alone, so each
//! result is given a name here and every contract above speaks of the
//! names.

use vstd::prelude::*;

verus! {

/// What `url::Url::parse_with_params` makes of an absolute URL and a list of
/// query pairs: `None` when the URL does not parse, otherwise the
/// serialization of the parsed URL with the pairs appended, percent-encoded,
/// to its query string.
pub uninterp spec fn url_with_query(base: Seq<char>, pairs: Seq<(Seq<char>, Seq<char>)>) -> Option<
    Seq<char>,
>;

/// Whether `hyper::Uri` accepts the string as a request URI.
pub uninterp spec fn uri_ok(s: Seq<char>) -> bool;

/// The views of a list of query pairs.
pub open spec fn pairs_view(pairs: Seq<(String, String)>) -> Seq<(Seq<char>, Seq<char>)> {
    pairs.map_values(|p: (String, String)| (p.0@, p.1@))
}

/// Relies on `url::Url::parse_with_params`: parses an absolute URL, appends
/// the given name/value pairs percent-encoded to its query string, and
/// serializes the result; its documentation promises an error exactly when
/// the base string cannot be parsed as an absolute URL, whatever the pairs.
#[verifier::external_body]
pub(crate) fn url_with_params(base: &str, params: &Vec<(String, String)>) -> (r: Result<
    String,
    String,
>)
    ensures
        r is Ok <==> url_with_query(base@, pairs_view(params@)) is Some,
        r matches Ok(u) ==> u@ == url_with_query(base@, pairs_view(params@)).unwrap(),
        r is Ok <==> url_with_query(base@, Seq::<(Seq<char>, Seq<char>)>::empty()) is Some,
{
    match url::Url::parse_with_params(base, params.iter()) {
        Ok(u) => Ok(String::from(u)),
        Err(e) => Err(e.to_string()),
    }
}

/// Relies on `hyper::Uri`'s `str` parse: accepts the string exactly when it
/// is a valid request URI, returning the rendered parse error otherwise.
#[verifier::external_body]
pub(crate) fn check_request_uri(s: &str) -> (r: Result<(), String>)
    ensures
        r is Ok <==> uri_ok(s@),
{
    match s.parse::<hyper::Uri>() {
        Ok(_) => Ok(()),
        Err(e) => Err(e.to_string()),
    }
}

} // verus!
