//! The client: the single point where the client identifier is attached to
//! every outbound request.
//!
//! The client computes each request as a plain value — a full `https` URL
//! whose query carries the accumulated parameters and the `client_id` — and
//! decides what a response means. Performing the request is the caller's
//! work, driven by the values this module produces.

use vstd::prelude::*;

use crate::error::Error;
use crate::records::Track;
use crate::spec_api_host;
use crate::urls::{check_request_uri, pairs_view, uri_ok, url_with_params, url_with_query};

verus! {

/// An authenticated GET request, ready to be issued by the caller.
#[derive(Debug)]
pub struct Request {
    /// The full request URL, query parameters and `client_id` included.
    pub url: String,
}

/// The base URL a path is addressed under.
pub open spec fn spec_base_url(path: Seq<char>) -> Seq<char> {
    "https://"@ + spec_api_host() + path
}

/// The given query pairs with the `client_id` pair appended last.
pub open spec fn spec_authed_pairs(params: Seq<(Seq<char>, Seq<char>)>, id: Seq<char>) -> Seq<
    (Seq<char>, Seq<char>),
> {
    params.push(("client_id"@, id))
}

/// What building an authenticated request from a base URL and query pairs
/// returns: the request URL when the base parses and the result is a valid
/// request URI, `ParseError` when the base does not parse, and `UriError`
/// when the encoded result is not a valid URI — each exactly in its case.
pub open spec fn spec_built_request(
    r: Result<Request, Error>,
    base: Seq<char>,
    params: Seq<(Seq<char>, Seq<char>)>,
    id: Seq<char>,
) -> bool {
    match url_with_query(base, spec_authed_pairs(params, id)) {
        Some(full) => match r {
            Ok(req) => uri_ok(full) && req.url@ == full,
            Err(e) => e matches Error::UriError(_) && !uri_ok(full),
        },
        None => r matches Err(e) && e matches Error::ParseError(_),
    }
}

/// Appends the `client_id` pair to a copy of the given parameters.
fn authed_params(params: Option<&Vec<(String, String)>>, client_id: &str) -> (r: Vec<
    (String, String),
>)
    ensures
        pairs_view(r@) == spec_authed_pairs(
            (match params {
                Some(ps) => pairs_view(ps@),
                None => Seq::empty(),
            }),
            client_id@,
        ),
{
    let mut out: Vec<(String, String)> = Vec::new();
    if let Some(ps) = params {
        let mut i: usize = 0;
        while i < ps.len()
            invariant
                i <= ps.len(),
                pairs_view(out@) == pairs_view(ps@).take(i as int),
            decreases ps.len() - i,
        {
            let k = ps[i].0.clone();
            let v = ps[i].1.clone();
            let ghost prev = out@;
            out.push((k, v));
            proof {
                assert(out@ == prev.push((k, v)));
                assert(pairs_view(prev).len() == prev.len());
                assert(pairs_view(ps@).take(i as int).len() == i);
                assert(prev.len() == i);
                assert forall|j: int| 0 <= j < out@.len() implies #[trigger] pairs_view(out@)[j]
                    == pairs_view(ps@).take(i + 1)[j] by {
                    if j < i {
                        assert(out@[j] == prev[j]);
                        assert(pairs_view(prev)[j] == pairs_view(ps@).take(i as int)[j]);
                    } else {
                        assert(out@[j] == (k, v));
                    }
                }
                assert(pairs_view(out@) =~= pairs_view(ps@).take(i + 1));
            }
            i += 1;
        }
        proof {
            assert(pairs_view(ps@).take(ps@.len() as int) =~~= pairs_view(ps@));
        }
    }
    let ghost before = pairs_view(out@);
    proof {
        reveal_strlit("client_id");
    }
    out.push((String::from_str("client_id"), String::from_str(client_id)));
    proof {
        assert(pairs_view(out@) =~~= before.push(("client_id"@, client_id@)));
    }
    out
}

/// Builds the authenticated request for a base URL and query pairs.
fn build_request(base: &str, params: Option<&Vec<(String, String)>>, client_id: &str) -> (r:
    Result<Request, Error>)
    ensures
        spec_built_request(
            r,
            base@,
            (match params {
                Some(ps) => pairs_view(ps@),
                None => Seq::empty(),
            }),
            client_id@,
        ),
{
    let pairs = authed_params(params, client_id);
    match url_with_params(base, &pairs) {
        Ok(full) => match check_request_uri(full.as_str()) {
            Ok(_) => Ok(Request { url: full }),
            Err(m) => Err(Error::UriError(m)),
        },
        Err(m) => Err(Error::ParseError(m)),
    }
}

/// Builds the authenticated request for a path on the API host.
pub(crate) fn build_api_request(
    path: &str,
    params: Option<&Vec<(String, String)>>,
    client_id: &str,
) -> (r: Result<Request, Error>)
    ensures
        spec_built_request(
            r,
            spec_base_url(path@),
            (match params {
                Some(ps) => pairs_view(ps@),
                None => Seq::empty(),
            }),
            client_id@,
        ),
{
    proof {
        reveal_strlit("https://");
    }
    let mut base = String::from_str("https://");
    base.append(crate::api_host());
    base.append(path);
    assert(base@ =~= spec_base_url(path@));
    build_request(base.as_str(), params, client_id)
}

/// A handle on the remote service: the client identifier that is attached
/// to every request built through it.
#[derive(Debug)]
pub struct Client {
    client_id: String,
}

impl Client {
    /// The identifier attached to every request.
    pub closed spec fn spec_client_id(&self) -> Seq<char> {
        self.client_id@
    }

    /// Constructs a new `Client` with the provided `client_id`.
    pub fn new(client_id: &str) -> (c: Client)
        ensures
            c.spec_client_id() == client_id@,
    {
        Client { client_id: String::from_str(client_id) }
    }

    /// Returns the client id.
    pub fn client_id(&self) -> (r: &str)
        ensures
            r@ == self.spec_client_id(),
    {
        self.client_id.as_str()
    }

    /// Builds an authenticated GET request to an API endpoint.
    ///
    /// The URL addresses `path` on the API host, carries the given query
    /// parameters, and a `client_id` parameter is added automatically.
    pub fn get(&self, path: &str, params: Option<&Vec<(String, String)>>) -> (r: Result<
        Request,
        Error,
    >)
        ensures
            spec_built_request(
                r,
                spec_base_url(path@),
                (match params {
                    Some(ps) => pairs_view(ps@),
                    None => Seq::empty(),
                }),
                self.spec_client_id(),
            ),
    {
        build_api_request(path, params, self.client_id.as_str())
    }

    /// Parses a string into a request URL with the `client_id` query
    /// parameter appended, failing with `ParseError` on a string that is no
    /// absolute URL and with `UriError` on one that is no valid request URI.
    pub fn parse_url(&self, url: &str) -> (r: Result<String, Error>)
        ensures
            (match url_with_query(
                url@,
                spec_authed_pairs(Seq::empty(), self.spec_client_id()),
            ) {
                Some(full) => match r {
                    Ok(u) => uri_ok(full) && u@ == full,
                    Err(e) => e matches Error::UriError(_) && !uri_ok(full),
                },
                None => r matches Err(e) && e matches Error::ParseError(_),
            }),
    {
        match build_request(url, None, self.client_id.as_str()) {
            Ok(req) => Ok(req.url),
            Err(e) => Err(e),
        }
    }

    /// Builds the request that resolves any resource URL of the service:
    /// an authenticated GET to `/resolve` with the URL as the `url`
    /// parameter. The outcome of issuing it is judged by
    /// [`resolve_outcome`].
    pub fn resolve(&self, url: &str) -> (r: Result<Request, Error>)
        ensures
            spec_built_request(
                r,
                spec_base_url("/resolve"@),
                seq![("url"@, url@)],
                self.spec_client_id(),
            ),
    {
        proof {
            reveal_strlit("url");
        }
        let mut params: Vec<(String, String)> = Vec::new();
        params.push((String::from_str("url"), String::from_str(url)));
        proof {
            assert(pairs_view(params@) =~~= seq![("url"@, url@)]);
        }
        self.get("/resolve", Some(&params))
    }

    /// Builds the download request for a track, or refuses it before any
    /// network call: a track is downloadable only when its flag is set and
    /// its download URL is present.
    pub fn download(&self, track: &Track) -> (r: Result<Request, Error>)
        ensures
            (r matches Err(e) && e matches Error::TrackNotDownloadable) <==> !track
                .spec_downloadable(),
            track.spec_downloadable() ==> spec_built_request(
                r,
                track.download_url.unwrap()@,
                Seq::empty(),
                self.spec_client_id(),
            ),
    {
        if !track.downloadable {
            return Err(Error::TrackNotDownloadable);
        }
        match &track.download_url {
            None => Err(Error::TrackNotDownloadable),
            Some(target) => build_request(target.as_str(), None, self.client_id.as_str()),
        }
    }

    /// Builds the streaming request for a track, or refuses it before any
    /// network call: a track is streamable only when its flag is set and
    /// its stream URL is present.
    pub fn stream(&self, track: &Track) -> (r: Result<Request, Error>)
        ensures
            (r matches Err(e) && e matches Error::TrackNotStreamable) <==> !track
                .spec_streamable(),
            track.spec_streamable() ==> spec_built_request(
                r,
                track.stream_url.unwrap()@,
                Seq::empty(),
                self.spec_client_id(),
            ),
    {
        if !track.streamable {
            return Err(Error::TrackNotStreamable);
        }
        match &track.stream_url {
            None => Err(Error::TrackNotStreamable),
            Some(target) => build_request(target.as_str(), None, self.client_id.as_str()),
        }
    }
}

/// What a response to the resolve request means.
pub open spec fn spec_resolve_outcome(location: Option<Seq<char>>, r: Result<String, Error>) -> bool {
    match location {
        None => r matches Err(e) && e matches Error::ApiError(m) && m@
            == "expected location header"@,
        Some(h) => match url_with_query(h, Seq::empty()) {
            Some(u) => r matches Ok(res) && res@ == u,
            None => r matches Err(e) && e matches Error::ParseError(_),
        },
    }
}

/// Judges the response to a resolve request.
///
/// The service answers via redirect, not body: success is the presence of a
/// `Location` header that parses as a URL, returned in its parsed
/// serialization. A missing header is the service's way of saying no.
pub fn resolve_outcome(location: Option<&str>) -> (r: Result<String, Error>)
    ensures
        spec_resolve_outcome(
            (match location {
                Some(h) => Some(h@),
                None => None,
            }),
            r,
        ),
{
    match location {
        None => Err(Error::ApiError(String::from_str("expected location header"))),
        Some(h) => {
            let none_params: Vec<(String, String)> = Vec::new();
            proof {
                assert(pairs_view(none_params@) =~~= Seq::<(Seq<char>, Seq<char>)>::empty());
            }
            match url_with_params(h, &none_params) {
                Ok(u) => Ok(u),
                Err(m) => Err(Error::ParseError(m)),
            }
        },
    }
}

} // verus!
