use soundcloud::{resolve_outcome, Client, Error, Track};

fn make_track(id: usize) -> Track {
    Track {
        id,
        created_at: String::from("2016/01/01 00:00:00 +0000"),
        user_id: 7,
        title: String::from("Tree Eater"),
        permalink: String::from("tree-eater-1"),
        permalink_url: String::from("https://soundcloud.com/isqa/tree-eater-1"),
        uri: String::from("https://api.soundcloud.com/tracks/262976655"),
        sharing: Some(String::from("public")),
        description: None,
        genre: None,
        duration: Some(183000),
        streamable: false,
        downloadable: false,
        stream_url: None,
        download_url: None,
        playback_count: None,
        download_count: None,
        favoritings_count: None,
        comment_count: None,
    }
}

#[test]
fn test_resolve_track() {
    let client = Client::new("MYID");
    let request = client
        .resolve("https://soundcloud.com/isqa/tree-eater-1")
        .unwrap();
    assert_eq!(
        request.url,
        "https://api.soundcloud.com/resolve?url=https%3A%2F%2Fsoundcloud.com%2Fisqa%2Ftree-eater-1&client_id=MYID"
    );

    let canonical = format!("https://api.soundcloud.com/tracks/262976655?client_id={}", "MYID");
    let resolved = resolve_outcome(Some(&canonical)).unwrap();
    assert_eq!(resolved, canonical);
}

#[test]
fn test_resolve_missing_location() {
    let result = resolve_outcome(None);
    assert_eq!(
        result,
        Err(Error::ApiError(String::from("expected location header")))
    );
}

#[test]
fn test_resolve_bad_location() {
    let result = resolve_outcome(Some("not a url at all"));
    assert!(matches!(result, Err(Error::ParseError(_))));
}

#[test]
fn test_client_id_is_kept() {
    let client = Client::new("SECRETTOKEN");
    assert_eq!(client.client_id(), "SECRETTOKEN");
}

#[test]
fn test_get_appends_client_id() {
    let client = Client::new("MYID");
    let request = client.get("/tracks", None).unwrap();
    assert_eq!(request.url, "https://api.soundcloud.com/tracks?client_id=MYID");
}

#[test]
fn test_get_with_params() {
    let client = Client::new("MYID");
    let params = vec![(String::from("limit"), String::from("10"))];
    let request = client.get("/tracks", Some(&params)).unwrap();
    assert_eq!(
        request.url,
        "https://api.soundcloud.com/tracks?limit=10&client_id=MYID"
    );
}

#[test]
fn test_parse_url_appends_client_id() {
    let client = Client::new("MYID");
    let url = client
        .parse_url("https://api.soundcloud.com/tracks/1")
        .unwrap();
    assert_eq!(url, "https://api.soundcloud.com/tracks/1?client_id=MYID");
}

#[test]
fn test_parse_url_rejects_garbage() {
    let client = Client::new("MYID");
    let result = client.parse_url("::not-a-url::");
    assert!(matches!(result, Err(Error::ParseError(_))));
}

#[test]
fn test_download_not_downloadable_flag() {
    let client = Client::new("MYID");
    let mut track = make_track(263801976);
    track.download_url = Some(String::from("https://api.soundcloud.com/tracks/263801976/download"));
    track.downloadable = false;
    let result = client.download(&track);
    assert_eq!(result.unwrap_err(), Error::TrackNotDownloadable);
}

#[test]
fn test_download_no_url() {
    let client = Client::new("MYID");
    let mut track = make_track(263801976);
    track.downloadable = true;
    track.download_url = None;
    let result = client.download(&track);
    assert_eq!(result.unwrap_err(), Error::TrackNotDownloadable);
}

#[test]
fn test_download_track() {
    let client = Client::new("MYID");
    let mut track = make_track(263801976);
    track.downloadable = true;
    track.download_url = Some(String::from("https://api.soundcloud.com/tracks/263801976/download"));
    let request = client.download(&track).unwrap();
    assert_eq!(
        request.url,
        "https://api.soundcloud.com/tracks/263801976/download?client_id=MYID"
    );
}

#[test]
fn test_stream_not_streamable() {
    let client = Client::new("MYID");
    let track = make_track(262681089);
    let result = client.stream(&track);
    assert_eq!(result.unwrap_err(), Error::TrackNotStreamable);
}

#[test]
fn test_stream_track() {
    let client = Client::new("MYID");
    let mut track = make_track(262681089);
    track.streamable = true;
    track.stream_url = Some(String::from("https://api.soundcloud.com/tracks/262681089/stream"));
    let request = client.stream(&track).unwrap();
    assert_eq!(
        request.url,
        "https://api.soundcloud.com/tracks/262681089/stream?client_id=MYID"
    );
}

#[test]
fn test_parse_url_rejects_non_authority_uri() {
    let client = Client::new("MYID");
    let result = client.parse_url("mailto:user@example.com");
    assert!(matches!(result, Err(Error::UriError(_))));
}

#[test]
fn test_error_descriptions() {
    assert_eq!(
        Error::ApiError(String::from("oh no")).description(),
        "SoundCloud error: oh no"
    );
    assert_eq!(
        Error::JsonError(String::from("bad")).description(),
        "JSON error: bad"
    );
    assert_eq!(
        Error::TrackNotDownloadable.description(),
        "The track is not available for download"
    );
    assert_eq!(
        Error::TrackNotStreamable.description(),
        "The track is not available for streaming"
    );
    assert_eq!(
        Error::InvalidFilter(String::from("x")).description(),
        "Invalid filter"
    );
}

#[test]
fn test_error_equality_is_per_kind() {
    assert_eq!(Error::TrackNotDownloadable, Error::TrackNotDownloadable);
    assert_eq!(Error::TrackNotStreamable, Error::TrackNotStreamable);
    assert_ne!(Error::TrackNotStreamable, Error::TrackNotDownloadable);
    assert_ne!(Error::TrackNotDownloadable, Error::TrackNotStreamable);
    assert_eq!(
        Error::ApiError(String::from("x")),
        Error::ApiError(String::from("x"))
    );
    assert_ne!(
        Error::ApiError(String::from("x")),
        Error::ApiError(String::from("y"))
    );
    assert_ne!(
        Error::ApiError(String::from("x")),
        Error::JsonError(String::from("x"))
    );
    assert_eq!(
        Error::UriError(String::from("u")),
        Error::UriError(String::from("u"))
    );
    assert_eq!(Error::Io(String::from("i")), Error::Io(String::from("i")));
    assert_ne!(
        Error::HttpError(String::from("h")),
        Error::Io(String::from("h"))
    );
    assert_eq!(
        Error::InvalidFilter(String::from("f")),
        Error::InvalidFilter(String::from("f"))
    );
    assert_eq!(
        Error::ParseError(String::from("p")),
        Error::ParseError(String::from("p"))
    );
}
