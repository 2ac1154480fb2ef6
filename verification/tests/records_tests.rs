use soundcloud::text::{decimal_string, join_comma};
use soundcloud::{App, Comment, User};

fn make_user() -> User {
    User {
        id: 12,
        permalink: String::from("someone"),
        username: String::from("Someone"),
        uri: String::from("https://api.soundcloud.com/users/12"),
        permalink_url: String::from("https://soundcloud.com/someone"),
        avatar_url: String::from("https://i1.sndcdn.com/avatars-12.jpg"),
        country: None,
        full_name: None,
        city: Some(String::from("Berlin")),
        description: None,
        discogs_name: None,
        myspace_name: None,
        website: None,
        website_title: None,
        online: Some(false),
        track_count: Some(3),
        playlist_count: None,
        followers_count: None,
        followings_count: None,
        public_favorites_count: None,
    }
}

#[test]
fn test_records_keep_absent_fields_absent() {
    let user = make_user();
    assert_eq!(user.country, None);
    assert_eq!(user.city.as_deref(), Some("Berlin"));

    let comment = Comment {
        id: 5,
        uri: String::from("https://api.soundcloud.com/comments/5"),
        created_at: String::from("2016/02/03 10:00:00 +0000"),
        body: String::from("nice one"),
        timestamp: None,
        user_id: 12,
        user: make_user(),
        track_id: 99,
    };
    assert_eq!(comment.timestamp, None);
    assert_eq!(comment.user, make_user());

    let app = App {
        id: 4,
        uri: String::from("https://api.soundcloud.com/apps/4"),
        permalink_url: String::from("https://soundcloud.com/apps/4"),
        external_url: String::from("https://example.net"),
        creator: None,
    };
    assert_eq!(app.creator, None);
}

#[test]
fn test_decimal_rendering() {
    assert_eq!(decimal_string(0), "0");
    assert_eq!(decimal_string(7), "7");
    assert_eq!(decimal_string(10), "10");
    assert_eq!(decimal_string(262976655), "262976655");
    assert_eq!(decimal_string(usize::MAX), usize::MAX.to_string());
}

#[test]
fn test_join_comma() {
    let empty: Vec<String> = vec![];
    assert_eq!(join_comma(&empty), "");
    assert_eq!(join_comma(&vec![String::from("HipHop")]), "HipHop");
    assert_eq!(
        join_comma(&vec![String::from("HipHop"), String::from("Jazz"), String::from("Dub")]),
        "HipHop,Jazz,Dub"
    );
}
