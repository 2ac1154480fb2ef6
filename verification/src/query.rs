//! The request builders: fluent accumulators of query criteria that
//! terminate in one authenticated GET request.
//!
//! Each setter consumes the builder and returns the updated value, so two
//! chains never alias. Passing `None` to a setter is a no-op: a previously
//! set value stays, and an unset one stays unset — filters cannot be unset.

use vstd::prelude::*;

use crate::client::{spec_base_url, spec_built_request, Client, Request};
use crate::error::Error;
use crate::records::Track;
use crate::text::{contains_comma, join_comma, push_decimal, spec_decimal, spec_join_comma};
use crate::urls::pairs_view;

verus! {

/// The ghost image of a single track-by-id lookup: the client identifier
/// and the id of the track to look up.
pub struct TrackLookupView {
    /// The client identifier the request will carry.
    pub client_id: Seq<char>,
    /// The id of the track to look up.
    pub id: int,
}

/// Builder for a single track-by-id lookup: `GET /tracks/{id}`.
#[derive(Debug)]
pub struct SingleTrackRequestBuilder {
    client_id: String,
    id: usize,
}

impl View for SingleTrackRequestBuilder {
    type V = TrackLookupView;

    closed spec fn view(&self) -> TrackLookupView {
        TrackLookupView { client_id: self.client_id@, id: self.id as int }
    }
}

impl SingleTrackRequestBuilder {
    /// Constructs a builder for the track with the given id.
    pub fn new(client: &Client, id: usize) -> (b: SingleTrackRequestBuilder)
        ensures
            b@ == (TrackLookupView { client_id: client.spec_client_id(), id: id as int }),
    {
        SingleTrackRequestBuilder { client_id: String::from_str(client.client_id()), id }
    }

    /// The id of the track to look up.
    pub fn id(&self) -> (r: usize)
        ensures
            r == self@.id,
    {
        self.id
    }

    /// Builds the authenticated GET request for `/tracks/{id}`.
    pub fn request(&self) -> (r: Result<Request, Error>)
        ensures
            spec_built_request(
                r,
                spec_base_url("/tracks/"@ + spec_decimal(self@.id)),
                Seq::empty(),
                self@.client_id,
            ),
    {
        proof {
            reveal_strlit("/tracks/");
        }
        let mut path = String::from_str("/tracks/");
        push_decimal(&mut path, self.id);
        assert(path@ =~= "/tracks/"@ + spec_decimal(self@.id));
        crate::client::build_api_request(path.as_str(), None, self.client_id.as_str())
    }

    /// What judging the decoded response body returns: the record exactly
    /// as decoded, or the decoder's failure as a `JsonError`.
    pub open spec fn spec_response(parsed: Result<Track, String>) -> Result<Track, Error> {
        match parsed {
            Ok(t) => Ok(t),
            Err(m) => Err(Error::JsonError(m)),
        }
    }

    /// Judges the response body of a single-track lookup, decoded into a
    /// record or a decoding failure. The record is passed through unchanged.
    pub fn response(parsed: Result<Track, String>) -> (r: Result<Track, Error>)
        ensures
            r == Self::spec_response(parsed),
    {
        match parsed {
            Ok(t) => Ok(t),
            Err(m) => Err(Error::JsonError(m)),
        }
    }
}

/// A single-resource lookup whose response decoded to a record with id `X`
/// yields a record whose id equals `X`: the record is returned as decoded.
pub proof fn lemma_lookup_preserves_id(parsed: Result<Track, String>)
    requires
        parsed is Ok,
    ensures
        SingleTrackRequestBuilder::spec_response(parsed) matches Ok(t) && t == parsed.unwrap()
            && t.id == parsed.unwrap().id,
{
}

/// The ghost image of a multi-resource query builder: the client identifier
/// and each filter criterion that has been set.
pub struct TracksQueryView {
    /// The client identifier the request will carry.
    pub client_id: Seq<char>,
    /// Free-text query filter, key `q`.
    pub query: Option<Seq<char>>,
    /// Tag list filter, key `tags`, comma-joined.
    pub tags: Option<Seq<Seq<char>>>,
    /// Genre list filter, key `genres`, comma-joined.
    pub genres: Option<Seq<Seq<char>>>,
    /// License filter, key `license`.
    pub license: Option<Seq<char>>,
}

/// Builder for a multi-resource track query: `GET /tracks` with the
/// accumulated filter criteria.
#[derive(Debug)]
pub struct TrackRequestBuilder {
    client_id: String,
    query: Option<String>,
    tags: Option<Vec<String>>,
    genres: Option<Vec<String>>,
    license: Option<String>,
}

impl View for TrackRequestBuilder {
    type V = TracksQueryView;

    closed spec fn view(&self) -> TracksQueryView {
        TracksQueryView {
            client_id: self.client_id@,
            query: self.query.deep_view(),
            tags: self.tags.deep_view(),
            genres: self.genres.deep_view(),
            license: self.license.deep_view(),
        }
    }
}

/// Whether a list filter can be encoded: its items are joined with commas,
/// so no item may itself contain one.
/// Whether some item of the list contains a comma.
pub open spec fn spec_any_comma(items: Seq<Seq<char>>) -> bool {
    exists|i: int| 0 <= i < items.len() && (#[trigger] items[i]).contains(',')
}

pub open spec fn spec_list_encodable(l: Option<Seq<Seq<char>>>) -> bool {
    match l {
        Some(items) => !spec_any_comma(items),
        None => true,
    }
}

/// Whether every filter of the builder can be encoded.
pub open spec fn spec_filters_encodable(v: TracksQueryView) -> bool {
    spec_list_encodable(v.tags) && spec_list_encodable(v.genres)
}

/// The query parameters a builder serializes to, in fixed order: `q`,
/// `tags`, `genres`, `license` — each present exactly when set.
pub open spec fn spec_filter_params(v: TracksQueryView) -> Seq<(Seq<char>, Seq<char>)> {
    let none_set = Seq::<(Seq<char>, Seq<char>)>::empty();
    let with_query = (match v.query {
        Some(q) => none_set.push(("q"@, q)),
        None => none_set,
    });
    let with_tags = (match v.tags {
        Some(t) => with_query.push(("tags"@, spec_join_comma(t))),
        None => with_query,
    });
    let with_genres = (match v.genres {
        Some(g) => with_tags.push(("genres"@, spec_join_comma(g))),
        None => with_tags,
    });
    match v.license {
        Some(l) => with_genres.push(("license"@, l)),
        None => with_genres,
    }
}

/// Whether any item of the list contains a comma.
fn list_has_comma(items: &Vec<String>) -> (r: bool)
    ensures
        r == !spec_list_encodable(Some(items.deep_view())),
{
    let ghost dv = items.deep_view();
    let mut i: usize = 0;
    while i < items.len()
        invariant
            i <= items.len(),
            dv == items.deep_view(),
            forall|j: int| 0 <= j < i ==> !(#[trigger] dv[j]).contains(','),
        decreases items.len() - i,
    {
        if contains_comma(items[i].as_str()) {
            proof {
                assert(dv.len() == items@.len());
                assert(dv[i as int].contains(','));
            }
            return true;
        }
        i += 1;
    }
    false
}

/// Appends one key/value query pair.
fn push_param(params: &mut Vec<(String, String)>, key: &str, value: String)
    ensures
        pairs_view(final(params)@) == pairs_view(old(params)@).push((key@, value@)),
{
    let ghost prev = params@;
    params.push((String::from_str(key), value));
    proof {
        assert(pairs_view(prev).len() == prev.len());
        assert forall|j: int| 0 <= j < params@.len() implies #[trigger] pairs_view(params@)[j]
            == pairs_view(prev).push((key@, value@))[j] by {
            if j < prev.len() {
                assert(params@[j] == prev[j]);
            }
        }
        assert(pairs_view(params@) =~= pairs_view(prev).push((key@, value@)));
    }
}

impl TrackRequestBuilder {
    /// Constructs an empty builder: no filter is set.
    pub fn new(client: &Client) -> (b: TrackRequestBuilder)
        ensures
            b@ == (TracksQueryView {
                client_id: client.spec_client_id(),
                query: None,
                tags: None,
                genres: None,
                license: None,
            }),
    {
        TrackRequestBuilder {
            client_id: String::from_str(client.client_id()),
            query: None,
            tags: None,
            genres: None,
            license: None,
        }
    }

    /// Sets the free-text query filter; `None` leaves the builder unchanged.
    pub fn query(self, query: Option<&str>) -> (b: TrackRequestBuilder)
        ensures
            b@ == (match query {
                Some(q) => TracksQueryView { query: Some(q@), ..self@ },
                None => self@,
            }),
    {
        match query {
            Some(q) => TrackRequestBuilder { query: Some(String::from_str(q)), ..self },
            None => self,
        }
    }

    /// Sets the tag list filter; `None` leaves the builder unchanged.
    pub fn tags(self, tags: Option<Vec<String>>) -> (b: TrackRequestBuilder)
        ensures
            b@ == (match tags {
                Some(t) => TracksQueryView { tags: Some(t.deep_view()), ..self@ },
                None => self@,
            }),
    {
        match tags {
            Some(t) => TrackRequestBuilder { tags: Some(t), ..self },
            None => self,
        }
    }

    /// Sets the genre list filter; `None` leaves the builder unchanged.
    pub fn genres(self, genres: Option<Vec<String>>) -> (b: TrackRequestBuilder)
        ensures
            b@ == (match genres {
                Some(g) => TracksQueryView { genres: Some(g.deep_view()), ..self@ },
                None => self@,
            }),
    {
        match genres {
            Some(g) => TrackRequestBuilder { genres: Some(g), ..self },
            None => self,
        }
    }

    /// Sets the license filter; `None` leaves the builder unchanged.
    pub fn license(self, license: Option<&str>) -> (b: TrackRequestBuilder)
        ensures
            b@ == (match license {
                Some(l) => TracksQueryView { license: Some(l@), ..self@ },
                None => self@,
            }),
    {
        match license {
            Some(l) => TrackRequestBuilder { license: Some(String::from_str(l)), ..self },
            None => self,
        }
    }

    /// Narrows the query to one track by id, discarding the other filters.
    pub fn id(self, id: usize) -> (b: SingleTrackRequestBuilder)
        ensures
            b@ == (TrackLookupView { client_id: self@.client_id, id: id as int }),
    {
        SingleTrackRequestBuilder { client_id: self.client_id, id }
    }

    /// Builds the authenticated GET request for `/tracks` with every filter
    /// that has been set, refusing with `InvalidFilter` — before anything
    /// else — exactly when a list filter holds an item with a comma in it.
    pub fn request(&self) -> (r: Result<Request, Error>)
        ensures
            !spec_filters_encodable(self@) ==> (r matches Err(e) && e matches Error::InvalidFilter(
                _,
            )),
            spec_filters_encodable(self@) ==> spec_built_request(
                r,
                spec_base_url("/tracks"@),
                spec_filter_params(self@),
                self@.client_id,
            ),
    {
        proof {
            reveal_strlit("q");
            reveal_strlit("tags");
            reveal_strlit("genres");
            reveal_strlit("license");
        }
        if let Some(ts) = &self.tags {
            if list_has_comma(ts) {
                return Err(
                    Error::InvalidFilter(String::from_str("tag must not contain a comma")),
                );
            }
        }
        if let Some(gs) = &self.genres {
            if list_has_comma(gs) {
                return Err(
                    Error::InvalidFilter(String::from_str("genre must not contain a comma")),
                );
            }
        }
        let ghost v = self@;
        let ghost none_set = Seq::<(Seq<char>, Seq<char>)>::empty();
        let ghost with_query = (match v.query {
            Some(q) => none_set.push(("q"@, q)),
            None => none_set,
        });
        let ghost with_tags = (match v.tags {
            Some(t) => with_query.push(("tags"@, spec_join_comma(t))),
            None => with_query,
        });
        let ghost with_genres = (match v.genres {
            Some(g) => with_tags.push(("genres"@, spec_join_comma(g))),
            None => with_tags,
        });
        let ghost with_license = (match v.license {
            Some(l) => with_genres.push(("license"@, l)),
            None => with_genres,
        });
        let mut params: Vec<(String, String)> = Vec::new();
        if let Some(q) = &self.query {
            push_param(&mut params, "q", q.clone());
        }
        assert(pairs_view(params@) =~~= with_query);
        if let Some(ts) = &self.tags {
            let joined = join_comma(ts);
            proof {
                assert(ts@.map_values(|s: String| s@) =~~= ts.deep_view());
                assert(joined@ == spec_join_comma(v.tags.unwrap()));
            }
            push_param(&mut params, "tags", joined);
        }
        assert(pairs_view(params@) =~~= with_tags);
        if let Some(gs) = &self.genres {
            let joined = join_comma(gs);
            proof {
                assert(gs@.map_values(|s: String| s@) =~~= gs.deep_view());
                assert(joined@ == spec_join_comma(v.genres.unwrap()));
            }
            push_param(&mut params, "genres", joined);
        }
        assert(pairs_view(params@) =~~= with_genres);
        if let Some(l) = &self.license {
            push_param(&mut params, "license", l.clone());
        }
        assert(pairs_view(params@) =~~= with_license);
        assert(with_license =~~= spec_filter_params(v));
        crate::client::build_api_request("/tracks", Some(&params), self.client_id.as_str())
    }

    /// What judging the decoded response body returns: the sequence of
    /// records exactly as decoded — absent or empty when the query matched
    /// nothing, which is a success, not an error — or the decoder's failure
    /// as a `JsonError`.
    pub open spec fn spec_response(parsed: Result<Option<Vec<Track>>, String>) -> Result<
        Option<Vec<Track>>,
        Error,
    > {
        match parsed {
            Ok(t) => Ok(t),
            Err(m) => Err(Error::JsonError(m)),
        }
    }

    /// Judges the response body of a track query, decoded into an optional
    /// list of records or a decoding failure. The records are passed
    /// through unchanged.
    pub fn response(parsed: Result<Option<Vec<Track>>, String>) -> (r: Result<
        Option<Vec<Track>>,
        Error,
    >)
        ensures
            r == Self::spec_response(parsed),
    {
        match parsed {
            Ok(t) => Ok(t),
            Err(m) => Err(Error::JsonError(m)),
        }
    }
}

/// A query yielding zero matches succeeds: an absent or empty record list
/// decodes to that same absent or empty list, never to an error.
pub proof fn lemma_empty_result_is_success(parsed: Result<Option<Vec<Track>>, String>)
    requires
        parsed matches Ok(t) && (t is None || t.unwrap()@.len() == 0),
    ensures
        TrackRequestBuilder::spec_response(parsed) == Result::<Option<Vec<Track>>, Error>::Ok(
            parsed.unwrap(),
        ),
{
}

impl Client {
    /// Returns a builder for a single track-by-id lookup.
    pub fn track(&self, id: usize) -> (b: SingleTrackRequestBuilder)
        ensures
            b@ == (TrackLookupView { client_id: self.spec_client_id(), id: id as int }),
    {
        SingleTrackRequestBuilder::new(self, id)
    }

    /// Returns a builder for searching tracks with multiple criteria.
    pub fn tracks(&self) -> (b: TrackRequestBuilder)
        ensures
            b@ == (TracksQueryView {
                client_id: self.spec_client_id(),
                query: None,
                tags: None,
                genres: None,
                license: None,
            }),
    {
        TrackRequestBuilder::new(self)
    }
}

} // verus!
