//! The closed set of failure kinds the library reports.
//!
//! Failures from outside collaborators (the HTTP transport, the JSON decoder,
//! the URL parser, the caller's sink) are carried as their rendered messages,
//! so that every error is a plain value callers can match on and compare.

use vstd::prelude::*;

verus! {

/// A failure surfaced to the caller of any library operation.
#[derive(Debug, Clone)]
pub enum Error {
    /// The remote service returned a structured error payload.
    ApiError(String),
    /// A URL could not be parsed.
    ParseError(String),
    /// A response body failed to deserialize into the expected record shape.
    JsonError(String),
    /// A transport-level failure (connection, TLS, timeout).
    HttpError(String),
    /// A builder was given a filter value it cannot encode.
    InvalidFilter(String),
    /// A local I/O failure while writing a response body to a sink.
    Io(String),
    /// A constructed request URI is invalid.
    UriError(String),
    /// The requested track is not available for download.
    TrackNotDownloadable,
    /// The requested track is not available for streaming.
    TrackNotStreamable,
}

impl Error {
    /// The rendered description of the failure.
    pub open spec fn spec_description(&self) -> Seq<char> {
        match self {
            Error::JsonError(m) => "JSON error: "@ + m@,
            Error::HttpError(m) => "HTTP error: "@ + m@,
            Error::ApiError(m) => "SoundCloud error: "@ + m@,
            Error::ParseError(m) => "Parse error: "@ + m@,
            Error::Io(m) => "IO error: "@ + m@,
            Error::UriError(m) => "URI error: "@ + m@,
            Error::InvalidFilter(_) => "Invalid filter"@,
            Error::TrackNotStreamable => "The track is not available for streaming"@,
            Error::TrackNotDownloadable => "The track is not available for download"@,
        }
    }

    /// Renders the failure for display.
    pub fn description(&self) -> (r: String)
        ensures
            r@ == self.spec_description(),
    {
        match self {
            Error::JsonError(m) => String::from_str("JSON error: ").concat(m.as_str()),
            Error::HttpError(m) => String::from_str("HTTP error: ").concat(m.as_str()),
            Error::ApiError(m) => String::from_str("SoundCloud error: ").concat(m.as_str()),
            Error::ParseError(m) => String::from_str("Parse error: ").concat(m.as_str()),
            Error::Io(m) => String::from_str("IO error: ").concat(m.as_str()),
            Error::UriError(m) => String::from_str("URI error: ").concat(m.as_str()),
            Error::InvalidFilter(_) => String::from_str("Invalid filter"),
            Error::TrackNotStreamable => String::from_str(
                "The track is not available for streaming",
            ),
            Error::TrackNotDownloadable => String::from_str(
                "The track is not available for download",
            ),
        }
    }

    /// Two errors are equal exactly when they are of the same kind and, for
    /// kinds carrying a message, the messages are equal. Each kind is equal
    /// only to itself: in particular the two "transfer not permitted" kinds
    /// are distinct.
    pub open spec fn eq_spec(&self, other: &Error) -> bool {
        match (self, other) {
            (Error::ApiError(a), Error::ApiError(b)) => a@ == b@,
            (Error::ParseError(a), Error::ParseError(b)) => a@ == b@,
            (Error::JsonError(a), Error::JsonError(b)) => a@ == b@,
            (Error::HttpError(a), Error::HttpError(b)) => a@ == b@,
            (Error::InvalidFilter(a), Error::InvalidFilter(b)) => a@ == b@,
            (Error::Io(a), Error::Io(b)) => a@ == b@,
            (Error::UriError(a), Error::UriError(b)) => a@ == b@,
            (Error::TrackNotDownloadable, Error::TrackNotDownloadable) => true,
            (Error::TrackNotStreamable, Error::TrackNotStreamable) => true,
            _ => false,
        }
    }
}

impl PartialEq for Error {
    fn eq(&self, other: &Error) -> (r: bool) {
        match (self, other) {
            (Error::ApiError(a), Error::ApiError(b)) => *a == *b,
            (Error::ParseError(a), Error::ParseError(b)) => *a == *b,
            (Error::JsonError(a), Error::JsonError(b)) => *a == *b,
            (Error::HttpError(a), Error::HttpError(b)) => *a == *b,
            (Error::InvalidFilter(a), Error::InvalidFilter(b)) => *a == *b,
            (Error::Io(a), Error::Io(b)) => *a == *b,
            (Error::UriError(a), Error::UriError(b)) => *a == *b,
            (Error::TrackNotDownloadable, Error::TrackNotDownloadable) => true,
            (Error::TrackNotStreamable, Error::TrackNotStreamable) => true,
            _ => false,
        }
    }
}

impl vstd::std_specs::cmp::PartialEqSpecImpl for Error {
    open spec fn obeys_eq_spec() -> bool {
        true
    }

    open spec fn eq_spec(&self, other: &Error) -> bool {
        Error::eq_spec(self, other)
    }
}

/// Error equality is reflexive: every error equals itself.
pub proof fn lemma_error_eq_reflexive(e: &Error)
    ensures
        e.eq_spec(e),
{
}

/// Error equality is symmetric; in particular neither of the two
/// "transfer not permitted" kinds equals the other in either direction.
pub proof fn lemma_error_eq_symmetric(a: &Error, b: &Error)
    ensures
        a.eq_spec(b) == b.eq_spec(a),
{
}

} // verus!
