use media_resolver::playlist::{
    display_date, AccessToken, ChannelNode, ClipNode, Decoded, LiveStream, NullField,
    PlaylistItem, ResolveError, VideoEdge, VideoNode, VideoPage,
};
use media_resolver::resolve::{
    append_signature, channel_playlist, channel_videos_playlist, clip_items, clip_playlist,
    video_playlist,
};

fn s(x: &str) -> String {
    String::from(x)
}

fn token(sig: &str, value: &str) -> AccessToken {
    AccessToken { signature: s(sig), value: s(value) }
}

fn live_channel() -> ChannelNode {
    ChannelNode {
        display_name: Some(s("SpeedGaming")),
        stream: Some(LiveStream {
            title: s("Race"),
            created_at: s("2023-01-12T11:49:13Z"),
            language: s("en"),
            game: Some(s("Zelda")),
            token: token("ab cd", "{\"x\":1}"),
        }),
    }
}

fn video(id: Option<&str>, duration: &str) -> VideoNode {
    VideoNode {
        id: id.map(s),
        title: s("Run"),
        description: Some(s("A run")),
        owner: Some(s("GamesDoneQuick")),
        game: None,
        recorded_at: s("2017-01-08T17:00:00Z"),
        duration: s(duration),
        language: s("en"),
        token: Some(token("sig", "tok")),
    }
}

fn clip(value: &str) -> ClipNode {
    ClipNode {
        title: s("Nice"),
        broadcaster: s("SpeedGaming"),
        game: Some(s("Zelda")),
        created_at: s("2023-02-01T10:00:00Z"),
        duration_seconds: 28,
        language: s("en"),
        token: token("sig", value),
    }
}

#[test]
fn dates_drop_separators() {
    assert_eq!(display_date("2023-01-12T11:49:13Z"), s("2023-01-12 11:49:13"));
    assert_eq!(display_date(""), s(""));
}

#[test]
fn signature_is_appended() {
    assert_eq!(
        append_signature("https://x/y.m3u8", "s%20", "t"),
        s("https://x/y.m3u8?allow_source=true&allow_audio_only=true&sig=s%20&token=t")
    );
}

#[test]
fn live_channel_record() {
    let r = channel_playlist("speedgaming", 200, "{}", Decoded::Found(live_channel())).unwrap();
    assert_eq!(
        r,
        vec![PlaylistItem {
            path: s("https://usher.ttvnw.net/api/channel/hls/speedgaming.m3u8?allow_source=true&allow_audio_only=true&sig=ab%20cd&token=%7B%22x%22%3A1%7D"),
            name: s("Race"),
            description: None,
            language: Some(s("en")),
            artist: Some(s("SpeedGaming")),
            genre: Some(s("Zelda")),
            date: Some(s("2023-01-12 11:49:13")),
            duration: None,
        }]
    );
}

#[test]
fn non_ok_status_is_upstream_error() {
    let r = channel_playlist("speedgaming", 500, "oops", Decoded::Found(live_channel()));
    assert_eq!(r, Err(ResolveError::UpstreamHttp { status: 500, body: s("oops") }));
    let r = video_playlist("1", 404, "", Decoded::Malformed);
    assert_eq!(r, Err(ResolveError::UpstreamHttp { status: 404, body: s("") }));
    let r = clip_playlist(403, "no", Decoded::Null);
    assert_eq!(r, Err(ResolveError::UpstreamHttp { status: 403, body: s("no") }));
}

#[test]
fn null_entities_and_offline() {
    assert_eq!(
        channel_playlist("x", 200, "", Decoded::Null),
        Err(ResolveError::NotFound(NullField::Channel))
    );
    let offline = ChannelNode { display_name: None, stream: None };
    assert_eq!(channel_playlist("x", 200, "", Decoded::Found(offline)), Err(ResolveError::Offline));
    assert_eq!(video_playlist("1", 200, "", Decoded::Null), Err(ResolveError::NotFound(NullField::Video)));
    assert_eq!(clip_playlist(200, "", Decoded::Null), Err(ResolveError::NotFound(NullField::Clip)));
    assert_eq!(
        channel_videos_playlist("x", "all", "time", 200, "", Decoded::Null),
        Err(ResolveError::NotFound(NullField::User))
    );
    assert_eq!(channel_playlist("x", 200, "", Decoded::Malformed), Err(ResolveError::UpstreamDecode));
}

#[test]
fn video_record() {
    let r = video_playlist("113837699", 200, "", Decoded::Found(video(Some("113837699"), "1h20m0s")))
        .unwrap();
    assert_eq!(r.len(), 1);
    assert_eq!(
        r[0].path,
        s("https://usher.ttvnw.net/vod/113837699.m3u8?allow_source=true&allow_audio_only=true&sig=sig&token=tok")
    );
    assert_eq!(r[0].duration, Some(4800));
    assert_eq!(r[0].date, Some(s("2017-01-08 17:00:00")));
    assert_eq!(r[0].artist, Some(s("GamesDoneQuick")));
    assert_eq!(r[0].description, Some(s("A run")));
    let mut no_token = video(Some("1"), "1s");
    no_token.token = None;
    assert_eq!(
        video_playlist("1", 200, "", Decoded::Found(no_token)),
        Err(ResolveError::NotFound(NullField::PlaybackAccessToken))
    );
}

#[test]
fn clip_record() {
    let value = "{\"clip_uri\":\"https://clips-media/abc.mp4\",\"other\":1}";
    let r = clip_playlist(200, "", Decoded::Found(clip(value))).unwrap();
    assert_eq!(r.len(), 1);
    assert_eq!(
        r[0].path,
        s("https://clips-media/abc.mp4?allow_source=true&allow_audio_only=true&sig=sig&token=%7B%22clip_uri%22%3A%22https%3A%2F%2Fclips-media%2Fabc.mp4%22%2C%22other%22%3A1%7D")
    );
    assert_eq!(r[0].duration, Some(28));
    assert_eq!(r[0].artist, Some(s("SpeedGaming")));
    assert_eq!(
        clip_playlist(200, "", Decoded::Found(clip("not json"))),
        Err(ResolveError::TokenDecode)
    );
    assert_eq!(
        clip_playlist(200, "", Decoded::Found(clip("{\"uri\":\"x\"}"))),
        Err(ResolveError::TokenDecode)
    );
    assert_eq!(clip_items(&clip("v"), None), Err(ResolveError::TokenDecode));
    assert_eq!(clip_items(&clip("v"), Some(s("u"))).unwrap()[0].path,
        s("u?allow_source=true&allow_audio_only=true&sig=sig&token=v"));
}

fn page(has_next_page: bool, ids: &[Option<&str>]) -> VideoPage {
    VideoPage {
        display_name: s("SpeedGaming"),
        edges: ids
            .iter()
            .enumerate()
            .map(|(i, id)| VideoEdge { cursor: format!("c{}", i), node: video(*id, "2m53s") })
            .collect(),
        has_next_page,
    }
}

#[test]
fn listing_with_next_page() {
    let r = channel_videos_playlist(
        "speedgaming",
        "archives",
        "views",
        200,
        "",
        Decoded::Found(page(true, &[Some("1"), Some("2")])),
    )
    .unwrap();
    assert_eq!(r.len(), 3);
    assert_eq!(r[0].path, s("https://www.twitch.tv/videos/1"));
    assert_eq!(r[1].path, s("https://www.twitch.tv/videos/2"));
    assert_eq!(r[1].duration, Some(173));
    assert_eq!(r[1].artist, Some(s("SpeedGaming")));
    assert_eq!(
        r[2],
        PlaylistItem {
            path: s("https://www.twitch.tv/speedgaming/videos?filter=archives&sort=views&cursor=c1"),
            name: s("Load more"),
            description: None,
            language: None,
            artist: Some(s("SpeedGaming")),
            genre: None,
            date: None,
            duration: None,
        }
    );
}

#[test]
fn listing_last_page() {
    let r = channel_videos_playlist("a", "all", "time", 200, "", Decoded::Found(page(false, &[Some("1")])))
        .unwrap();
    assert_eq!(r.len(), 1);
    let r = channel_videos_playlist("a", "all", "time", 200, "", Decoded::Found(page(false, &[])))
        .unwrap();
    assert_eq!(r.len(), 0);
}

#[test]
fn listing_inconsistent_pages() {
    assert_eq!(
        channel_videos_playlist("a", "all", "time", 200, "", Decoded::Found(page(false, &[Some("1"), None]))),
        Err(ResolveError::UpstreamDecode)
    );
    assert_eq!(
        channel_videos_playlist("a", "all", "time", 200, "", Decoded::Found(page(true, &[]))),
        Err(ResolveError::UpstreamDecode)
    );
}

#[test]
fn error_messages() {
    assert_eq!(ResolveError::Blocked.message(), "payment required");
    assert_eq!(ResolveError::Offline.message(), "channel is not live");
    assert_eq!(ResolveError::NotFound(NullField::User).message(), "user is null");
    assert_eq!(
        ResolveError::UpstreamHttp { status: 502, body: s("") }.message(),
        "received non-200 response from Twitch"
    );
    assert_eq!(ResolveError::TokenDecode.message(), "error deserializing token_value");
}
