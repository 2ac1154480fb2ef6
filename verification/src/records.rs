//! Plain data records mirroring the JSON objects the remote API returns.
//!
//! Optional fields stay optional: the remote API omits them depending on a
//! record's visibility, and absence is meaningful, so no default is
//! substituted for a missing value.

use vstd::prelude::*;

verus! {

/// A track hosted on the service.
///
/// A transfer (download or stream) is permitted only when the corresponding
/// flag is set and the corresponding URL is present; both are checked before
/// any network call.
#[derive(Debug, Clone, PartialEq)]
pub struct Track {
    /// Integer ID.
    pub id: usize,
    /// Time of creation, as an unparsed string.
    pub created_at: String,
    /// User ID of the owner.
    pub user_id: usize,
    /// Track title.
    pub title: String,
    /// Permalink of the resource.
    pub permalink: String,
    /// URL to the persistent resource page.
    pub permalink_url: String,
    /// API resource URL.
    pub uri: String,
    /// Sharing status.
    pub sharing: Option<String>,
    /// HTML description.
    pub description: Option<String>,
    /// Genre.
    pub genre: Option<String>,
    /// Duration in milliseconds.
    pub duration: Option<usize>,
    /// Whether the track is streamable via the API.
    pub streamable: bool,
    /// Whether the track is downloadable via the API.
    pub downloadable: bool,
    /// URL to the audio stream, when the API exposes one.
    pub stream_url: Option<String>,
    /// URL to the original download, when the API exposes one.
    pub download_url: Option<String>,
    /// Number of plays.
    pub playback_count: Option<usize>,
    /// Number of downloads.
    pub download_count: Option<usize>,
    /// Number of favoritings.
    pub favoritings_count: Option<usize>,
    /// Number of comments.
    pub comment_count: Option<usize>,
}

impl Track {
    /// A download may be attempted only when the flag is set and a URL is
    /// present.
    pub open spec fn spec_downloadable(&self) -> bool {
        self.downloadable && self.download_url is Some
    }

    /// A stream may be attempted only when the flag is set and a URL is
    /// present.
    pub open spec fn spec_streamable(&self) -> bool {
        self.streamable && self.stream_url is Some
    }
}

/// A registered user.
#[derive(Debug, Clone, PartialEq)]
pub struct User {
    /// Integer ID.
    pub id: usize,
    /// Permalink of the resource.
    pub permalink: String,
    /// Username.
    pub username: String,
    /// API resource URL.
    pub uri: String,
    /// URL to the persistent resource page.
    pub permalink_url: String,
    /// URL to a JPEG image.
    pub avatar_url: String,
    /// Country.
    pub country: Option<String>,
    /// First and last name.
    pub full_name: Option<String>,
    /// City.
    pub city: Option<String>,
    /// Description, written by the user.
    pub description: Option<String>,
    /// Discogs name.
    pub discogs_name: Option<String>,
    /// MySpace name.
    pub myspace_name: Option<String>,
    /// URL to a website.
    pub website: Option<String>,
    /// Custom title for the website.
    pub website_title: Option<String>,
    /// Online status.
    pub online: Option<bool>,
    /// Number of public tracks.
    pub track_count: Option<usize>,
    /// Number of public playlists.
    pub playlist_count: Option<usize>,
    /// Number of followers.
    pub followers_count: Option<usize>,
    /// Number of followed users.
    pub followings_count: Option<usize>,
    /// Number of favorited public tracks.
    pub public_favorites_count: Option<usize>,
}

/// A user comment on a track.
#[derive(Debug, Clone, PartialEq)]
pub struct Comment {
    /// Integer ID.
    pub id: usize,
    /// API resource URL.
    pub uri: String,
    /// Time of creation, as an unparsed string.
    pub created_at: String,
    /// HTML comment body.
    pub body: String,
    /// Associated timestamp in milliseconds.
    pub timestamp: Option<usize>,
    /// User ID of the commenter.
    pub user_id: usize,
    /// Small representation of the commenting user.
    pub user: User,
    /// The track ID of the related track.
    pub track_id: usize,
}

/// A registered client application.
#[derive(Debug, Clone, PartialEq)]
pub struct App {
    /// Integer ID.
    pub id: usize,
    /// API resource URL.
    pub uri: String,
    /// URL to the persistent resource page.
    pub permalink_url: String,
    /// URL to an external site.
    pub external_url: String,
    /// Username of the app creator.
    pub creator: Option<String>,
}

} // verus!
