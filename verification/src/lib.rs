//! Client library for the SoundCloud HTTP API.
//!
//! The library builds authenticated GET requests from fluent query builders,
//! decides how a response is handled (single redirect hop, chunked body
//! transfer), and maps every failure into a closed error model. Network and
//! disk I/O are left to the caller, who drives the request/response cycle
//! with the plain values this crate produces and consumes.

use vstd::prelude::*;

pub mod client;
pub mod error;
pub mod query;
pub mod records;
pub mod text;
pub mod transfer;
pub mod urls;

pub use client::{resolve_outcome, Client, Request};
pub use error::Error;
pub use query::{SingleTrackRequestBuilder, TrackLookupView, TrackRequestBuilder, TracksQueryView};
pub use records::{App, Comment, Track, User};
pub use transfer::{transfer_step, TransferAction, TransferEvent, TransferState};

verus! {

/// The static host address for the API.
pub open spec fn spec_api_host() -> Seq<char> {
    "api.soundcloud.com"@
}

/// Returns the host every request is addressed to.
pub fn api_host() -> (r: &'static str)
    ensures
        r@ == spec_api_host(),
{
    "api.soundcloud.com"
}

} // verus!
