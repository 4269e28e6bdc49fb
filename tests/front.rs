use media_resolver::front::{asks_for_json, reply_for, Reply, ResolveRequest};
use media_resolver::playlist::{PlaylistItem, ResolveError};

fn item(path: &str) -> PlaylistItem {
    PlaylistItem {
        path: String::from(path),
        name: String::from("n"),
        description: None,
        language: None,
        artist: None,
        genre: None,
        date: None,
        duration: None,
    }
}

#[test]
fn json_output_flag() {
    let req = |o: Option<&str>| ResolveRequest { url: String::new(), output: o.map(String::from) };
    assert!(asks_for_json(&req(Some("json"))));
    assert!(!asks_for_json(&req(Some("jsonp"))));
    assert!(!asks_for_json(&req(None)));
}

#[test]
fn replies() {
    assert!(matches!(reply_for(false, Ok(vec![item("a"), item("b")])), Reply::Redirect(p) if p == "a"));
    assert!(matches!(reply_for(false, Ok(vec![])), Reply::NotFound));
    assert!(matches!(reply_for(true, Ok(vec![item("a")])), Reply::Playlist(v) if v.len() == 1));
    assert!(matches!(
        reply_for(true, Err(ResolveError::Offline)),
        Reply::Failure { status: 200, message: "channel is not live" }
    ));
    assert!(matches!(
        reply_for(false, Err(ResolveError::Blocked)),
        Reply::Failure { status: 500, message: "payment required" }
    ));
}
