use media_resolver::matcher::{probe, TwitchMatch};

fn configured() -> Option<String> {
    Some(String::from("client"))
}

fn classify(url: &str) -> Option<TwitchMatch> {
    probe(url, &configured())
}

fn s(x: &str) -> String {
    String::from(x)
}

#[test]
fn no_client_id_matches_nothing() {
    assert_eq!(probe("https://www.twitch.tv/speedgaming", &None), None);
}

#[test]
fn channel_name_is_lowercased() {
    assert_eq!(
        classify("https://www.twitch.tv/SpeedGaming"),
        Some(TwitchMatch::Channel(s("speedgaming")))
    );
    assert_eq!(
        classify("http://www.twitch.tv/speedgaming?x=1"),
        Some(TwitchMatch::Channel(s("speedgaming")))
    );
}

#[test]
fn clip_wins_over_channel() {
    assert_eq!(
        classify("https://www.twitch.tv/gamesdonequick/clip/ExuberantMiniatureSandpiperDogFace"),
        Some(TwitchMatch::Clip(s("ExuberantMiniatureSandpiperDogFace")))
    );
    assert_eq!(
        classify("https://clips.twitch.tv/AmazonianKnottyLapwingSwiftRage?tt=1"),
        Some(TwitchMatch::Clip(s("AmazonianKnottyLapwingSwiftRage")))
    );
}

#[test]
fn video_shapes() {
    let want = Some(TwitchMatch::Video(s("113837699")));
    assert_eq!(classify("https://www.twitch.tv/videos/113837699"), want);
    assert_eq!(classify("https://www.twitch.tv/gamesdonequick/video/113837699"), want);
    assert_eq!(classify("https://www.twitch.tv/gamesdonequick/v/113837699"), want);
    assert_eq!(
        classify("https://player.twitch.tv/?video=v113837699&parent=example.com"),
        want
    );
    assert_eq!(classify("https://player.twitch.tv/?parent=a&video=113837699"), want);
    assert_eq!(
        classify("https://player.twitch.tv/?video=1&video=v113837699#video=2"),
        want
    );
}

#[test]
fn listing_defaults() {
    assert_eq!(
        classify("https://www.twitch.tv/speedgaming/videos"),
        Some(TwitchMatch::ChannelVideos(s("speedgaming"), s("all"), s("time"), None))
    );
}

#[test]
fn listing_parameters() {
    assert_eq!(
        classify("https://www.twitch.tv/SpeedGaming/videos?sort=views&filter=archives"),
        Some(TwitchMatch::ChannelVideos(s("SpeedGaming"), s("archives"), s("views"), None))
    );
    assert_eq!(
        classify(
            "https://www.twitch.tv/speedgaming/videos?filter=all&sort=time&cursor=1705053235|21|2023-01-12T11:49:13Z"
        ),
        Some(TwitchMatch::ChannelVideos(
            s("speedgaming"),
            s("all"),
            s("time"),
            Some(s("1705053235|21|2023-01-12T11:49:13Z"))
        ))
    );
    assert_eq!(
        classify("https://www.twitch.tv/speedgaming/videos?filter=a&filter=highlights&other=1&sort=views"),
        Some(TwitchMatch::ChannelVideos(s("speedgaming"), s("highlights"), s("time"), None))
    );
}

#[test]
fn unknown_urls() {
    assert_eq!(classify("not a url"), None);
    assert_eq!(classify("https://example.com/speedgaming"), None);
    assert_eq!(classify("https://www.twitch.tv/"), None);
    assert_eq!(classify("ftp://www.twitch.tv/speedgaming"), None);
}

#[test]
fn classification_repeats() {
    let url = "https://www.twitch.tv/gamesdonequick/v/113837699";
    assert_eq!(classify(url), classify(url));
}

#[test]
fn listing_links_classify_back() {
    assert_eq!(
        classify("https://www.twitch.tv/speedgaming/videos?filter=archives&sort=views&cursor=c1"),
        Some(TwitchMatch::ChannelVideos(s("speedgaming"), s("archives"), s("views"), Some(s("c1"))))
    );
    assert_eq!(
        classify("https://www.twitch.tv/videos/1705053235"),
        Some(TwitchMatch::Video(s("1705053235")))
    );
}
