use soundcloud::{Client, Error, SingleTrackRequestBuilder, Track, TrackRequestBuilder};

fn make_track(id: usize, title: &str) -> Track {
    Track {
        id,
        created_at: String::from("2016/01/01 00:00:00 +0000"),
        user_id: 7,
        title: String::from(title),
        permalink: String::from("a-track"),
        permalink_url: String::from("https://soundcloud.com/someone/a-track"),
        uri: String::from("https://api.soundcloud.com/tracks/1"),
        sharing: None,
        description: None,
        genre: None,
        duration: None,
        streamable: false,
        downloadable: false,
        stream_url: None,
        download_url: None,
        playback_count: None,
        download_count: None,
        favoritings_count: None,
        comment_count: None,
    }
}

#[test]
fn test_get_tracks() {
    let client = Client::new("MYID");
    let request = client
        .tracks()
        .query(Some("d0df0dt snuffx"))
        .request()
        .unwrap();
    assert_eq!(
        request.url,
        "https://api.soundcloud.com/tracks?q=d0df0dt+snuffx&client_id=MYID"
    );
}

#[test]
fn test_query_roundtrip() {
    let client = Client::new("MYID");
    let request = client.tracks().query(Some("noisia")).request().unwrap();
    assert_eq!(
        request.url,
        "https://api.soundcloud.com/tracks?q=noisia&client_id=MYID"
    );

    let tracks = vec![make_track(1, "Split the Atom"), make_track(2, "Diplodocus")];
    let titles: Vec<String> = TrackRequestBuilder::response(Ok(Some(tracks)))
        .unwrap()
        .unwrap()
        .iter()
        .map(|t| t.title.clone())
        .collect();
    assert_eq!(titles, vec!["Split the Atom", "Diplodocus"]);
}

#[test]
fn test_get_track() {
    let client = Client::new("MYID");
    let builder = client.tracks().id(18201932);
    assert_eq!(builder.id(), 18201932);
    let request = builder.request().unwrap();
    assert_eq!(
        request.url,
        "https://api.soundcloud.com/tracks/18201932?client_id=MYID"
    );

    let track = SingleTrackRequestBuilder::response(Ok(make_track(18201932, "x"))).unwrap();
    assert_eq!(track.id, 18201932);
}

#[test]
fn test_single_track_builder() {
    let client = Client::new("MYID");
    let request = client.track(0).request().unwrap();
    assert_eq!(
        request.url,
        "https://api.soundcloud.com/tracks/0?client_id=MYID"
    );
}

#[test]
fn test_setters_accumulate() {
    let client = Client::new("MYID");
    let request = client
        .tracks()
        .query(Some("garage"))
        .tags(Some(vec![String::from("dark"), String::from("minimal")]))
        .genres(Some(vec![String::from("HipHop"), String::from("Jazz")]))
        .license(Some("cc-by"))
        .request()
        .unwrap();
    assert_eq!(
        request.url,
        "https://api.soundcloud.com/tracks?q=garage&tags=dark%2Cminimal&genres=HipHop%2CJazz&license=cc-by&client_id=MYID"
    );
}

#[test]
fn test_none_is_a_no_op() {
    let client = Client::new("MYID");
    let with_query = client.tracks().query(Some("noisia"));
    let unchanged = with_query.query(None).genres(None).tags(None).license(None);
    let request = unchanged.request().unwrap();
    assert_eq!(
        request.url,
        "https://api.soundcloud.com/tracks?q=noisia&client_id=MYID"
    );
}

#[test]
fn test_setter_overwrites() {
    let client = Client::new("MYID");
    let request = client
        .tracks()
        .query(Some("first"))
        .query(Some("second"))
        .request()
        .unwrap();
    assert_eq!(
        request.url,
        "https://api.soundcloud.com/tracks?q=second&client_id=MYID"
    );
}

#[test]
fn test_invalid_genre_filter() {
    let client = Client::new("MYID");
    let result = client
        .tracks()
        .genres(Some(vec![String::from("Hip,Hop")]))
        .request();
    assert!(matches!(result, Err(Error::InvalidFilter(_))));
}

#[test]
fn test_invalid_tag_filter() {
    let client = Client::new("MYID");
    let result = client
        .tracks()
        .tags(Some(vec![String::from("ok"), String::from("a,b")]))
        .request();
    assert!(matches!(result, Err(Error::InvalidFilter(_))));
}

#[test]
fn test_empty_result_is_success() {
    let empty: Result<Option<Vec<Track>>, String> = Ok(Some(vec![]));
    assert_eq!(TrackRequestBuilder::response(empty), Ok(Some(vec![])));

    let absent: Result<Option<Vec<Track>>, String> = Ok(None);
    assert_eq!(TrackRequestBuilder::response(absent), Ok(None));
}

#[test]
fn test_bad_json_is_an_error() {
    let parsed: Result<Option<Vec<Track>>, String> = Err(String::from("expected an array"));
    assert_eq!(
        TrackRequestBuilder::response(parsed),
        Err(Error::JsonError(String::from("expected an array")))
    );

    let single: Result<Track, String> = Err(String::from("missing field id"));
    assert_eq!(
        SingleTrackRequestBuilder::response(single),
        Err(Error::JsonError(String::from("missing field id")))
    );
}
