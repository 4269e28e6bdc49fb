use media_resolver::matcher::TwitchMatch;
use media_resolver::playlist::ResolveError;
use media_resolver::request::{
    backend_request, broadcast_type_from_upper, filter_to_broadcast_type,
};

fn s(x: &str) -> String {
    String::from(x)
}

#[test]
fn broadcast_types() {
    assert_eq!(filter_to_broadcast_type("all"), None);
    assert_eq!(filter_to_broadcast_type("archives"), Some(s("ARCHIVE")));
    assert_eq!(filter_to_broadcast_type("highlights"), Some(s("HIGHLIGHT")));
    assert_eq!(filter_to_broadcast_type("uploads"), Some(s("UPLOAD")));
    assert_eq!(filter_to_broadcast_type(""), Some(s("")));
    assert_eq!(broadcast_type_from_upper("archives", "ARCHIVES"), Some(s("ARCHIVE")));
    assert_eq!(broadcast_type_from_upper("all", "ALL"), None);
}

#[test]
fn blocked_and_reserved_channels() {
    assert_eq!(backend_request(&TwitchMatch::Channel(s("twit"))), Err(ResolveError::Blocked));
    assert_eq!(
        backend_request(&TwitchMatch::Channel(s("directory"))),
        Err(ResolveError::Unsupported)
    );
    assert_eq!(
        backend_request(&TwitchMatch::Channel(s("recaps"))),
        Err(ResolveError::Unsupported)
    );
}

#[test]
fn channel_request_body() {
    let body = backend_request(&TwitchMatch::Channel(s("speedgaming"))).unwrap();
    assert!(body.starts_with("{\"query\":\"query Channel("));
    assert!(body.ends_with(
        ",\"variables\":{\"channelName\":\"speedgaming\",\"platform\":\"web\",\"playerType\":\"site\"}}"
    ));
}

#[test]
fn listing_request_body() {
    let m = TwitchMatch::ChannelVideos(s("speedgaming"), s("archives"), s("views"), None);
    let body = backend_request(&m).unwrap();
    assert!(body.ends_with(
        ",\"variables\":{\"cursor\":null,\"limit\":30,\"login\":\"speedgaming\",\"sort\":\"VIEWS\",\"type\":\"ARCHIVE\"}}"
    ));
    let m = TwitchMatch::ChannelVideos(s("a"), s("all"), s("time"), Some(s("c|1")));
    let body = backend_request(&m).unwrap();
    assert!(body.ends_with(
        ",\"variables\":{\"cursor\":\"c|1\",\"limit\":30,\"login\":\"a\",\"sort\":\"TIME\",\"type\":null}}"
    ));
}

#[test]
fn video_and_clip_request_bodies() {
    let body = backend_request(&TwitchMatch::Video(s("113837699"))).unwrap();
    assert!(body.ends_with(
        ",\"variables\":{\"platform\":\"web\",\"playerType\":\"site\",\"vodID\":\"113837699\"}}"
    ));
    let body = backend_request(&TwitchMatch::Clip(s("Quo\"te"))).unwrap();
    assert!(body.ends_with(
        ",\"variables\":{\"platform\":\"web\",\"playerType\":\"site\",\"slug\":\"Quo\\\"te\"}}"
    ));
    assert!(body.contains("\\n"));
}
