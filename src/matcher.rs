//! Classification of a page URL into the entity that it shows.
//!
//! Four shapes are known, tried in this order: clip, video, channel video listing, channel.
//! The channel shape is a prefix of the others, so the order decides.
use vstd::prelude::*;
use crate::text::{CharClass, in_class, lemma_mismatch, lemma_run_end_at, lemma_run_end_bounds, occurs_at, occurs_at_exec, run_end, run_end_exec, slice_owned};

verus! {

/// An entity reference extracted from a URL.
#[derive(Debug, Clone, PartialEq, Eq)]
pub enum TwitchMatch {
    /// A live channel, by its lower-cased name.
    Channel(String),
    /// A channel's video listing: name, filter, sort order and an optional page cursor.
    ChannelVideos(String, String, String, Option<String>),
    /// A video on demand, by its numeric identifier.
    Video(String),
    /// A clip, by its slug.
    Clip(String),
}

/// The mathematical value of a [`TwitchMatch`].
pub enum MatchView {
    Channel(Seq<char>),
    ChannelVideos(Seq<char>, Seq<char>, Seq<char>, Option<Seq<char>>),
    Video(Seq<char>),
    Clip(Seq<char>),
}

impl View for TwitchMatch {
    type V = MatchView;

    open spec fn view(&self) -> MatchView {
        match self {
            TwitchMatch::Channel(n) => MatchView::Channel(n@),
            TwitchMatch::ChannelVideos(n, f, s, c) => MatchView::ChannelVideos(
                n@,
                f@,
                s@,
                c.deep_view(),
            ),
            TwitchMatch::Video(id) => MatchView::Video(id@),
            TwitchMatch::Clip(slug) => MatchView::Clip(slug@),
        }
    }
}

/// The result of lower-casing a string, character by character as Unicode defines it.
pub uninterp spec fn lowercase_of(s: Seq<char>) -> Seq<char>;

/// Relies on `str::to_lowercase`, whose result depends on the characters alone.
#[verifier::external_body]
fn lowercase(s: &str) -> (r: String)
    ensures
        r@ == lowercase_of(s@),
{
    s.to_lowercase()
}

/// The index just past `http://` or `https://` followed by `host`.
pub open spec fn after_host(s: Seq<char>, host: Seq<char>) -> Option<int> {
    if occurs_at(s, 0, "https://"@) && occurs_at(s, "https://"@.len() as int, host) {
        Some(("https://"@.len() + host.len()) as int)
    } else if occurs_at(s, 0, "http://"@) && occurs_at(s, "http://"@.len() as int, host) {
        Some(("http://"@.len() + host.len()) as int)
    } else {
        None
    }
}

pub open spec fn after_www(s: Seq<char>) -> Option<int> {
    after_host(s, "www.twitch.tv/"@)
}

/// The non-empty run of `class` characters at `p`, if there is one.
pub open spec fn run_at(s: Seq<char>, p: int, class: CharClass) -> Option<Seq<char>> {
    let e = run_end(s, p, class);
    if e > p {
        Some(s.subrange(p, e))
    } else {
        None
    }
}

/// `clips.twitch.tv/{slug}`
pub open spec fn clip_on_clip_host(s: Seq<char>) -> Option<Seq<char>> {
    match after_host(s, "clips.twitch.tv/"@) {
        Some(p) => run_at(s, p, CharClass::NameChar),
        None => None,
    }
}

/// `www.twitch.tv/{channel}/clip/{slug}`
pub open spec fn clip_on_channel(s: Seq<char>) -> Option<Seq<char>> {
    match after_www(s) {
        Some(p) => {
            let g = run_end(s, p, CharClass::SegmentChar);
            if g > p && occurs_at(s, g, "/clip/"@) {
                run_at(s, g + "/clip/"@.len(), CharClass::NameChar)
            } else {
                None
            }
        },
        None => None,
    }
}

pub open spec fn clip_slug(s: Seq<char>) -> Option<Seq<char>> {
    if clip_on_clip_host(s) is Some {
        clip_on_clip_host(s)
    } else {
        clip_on_channel(s)
    }
}

/// `www.twitch.tv/videos/{id}`
pub open spec fn video_on_videos_path(s: Seq<char>) -> Option<Seq<char>> {
    match after_www(s) {
        Some(p) => if occurs_at(s, p, "videos/"@) {
            run_at(s, p + "videos/"@.len(), CharClass::Digit)
        } else {
            None
        },
        None => None,
    }
}

/// `www.twitch.tv/{channel}/v/{id}` and `www.twitch.tv/{channel}/video/{id}`
pub open spec fn video_on_channel(s: Seq<char>) -> Option<Seq<char>> {
    match after_www(s) {
        Some(p) => {
            let g = run_end(s, p, CharClass::SegmentChar);
            if g > p && occurs_at(s, g, "/v/"@) {
                run_at(s, g + "/v/"@.len(), CharClass::Digit)
            } else if g > p && occurs_at(s, g, "/video/"@) {
                run_at(s, g + "/video/"@.len(), CharClass::Digit)
            } else {
                None
            }
        },
        None => None,
    }
}

/// The identifier given by a `video=` parameter whose `?` or `&` stands at `j`; a `v`
/// before the digits is optional.
pub open spec fn player_video_at(s: Seq<char>, j: int) -> Option<Seq<char>> {
    if 0 <= j < s.len() && (s[j] == '?' || s[j] == '&') && occurs_at(s, j + 1, "video="@) {
        let k = j + 1 + "video="@.len();
        if k < s.len() && s[k] == 'v' {
            run_at(s, k + 1, CharClass::Digit)
        } else {
            run_at(s, k, CharClass::Digit)
        }
    } else {
        None
    }
}

/// The last `video=` parameter that gives an identifier at or before `j` and not before `p`.
pub open spec fn last_player_video(s: Seq<char>, p: int, j: int) -> Option<Seq<char>>
    decreases j - p + 1,
{
    if j < p {
        None
    } else if player_video_at(s, j) is Some {
        player_video_at(s, j)
    } else {
        last_player_video(s, p, j - 1)
    }
}

/// `player.twitch.tv/...?video=v{id}`: the last such parameter before any fragment.
pub open spec fn video_on_player(s: Seq<char>) -> Option<Seq<char>> {
    match after_host(s, "player.twitch.tv/"@) {
        Some(p) => last_player_video(s, p, run_end(s, p, CharClass::NonFragment)),
        None => None,
    }
}

pub open spec fn video_id(s: Seq<char>) -> Option<Seq<char>> {
    if video_on_videos_path(s) is Some {
        video_on_videos_path(s)
    } else if video_on_channel(s) is Some {
        video_on_channel(s)
    } else {
        video_on_player(s)
    }
}

/// The listing parameters `filter`, `sort` and `cursor` read from index `i` on, each
/// introduced by `?`, `&` or `#`; a later one of a name replaces an earlier one, and
/// reading stops at the first piece of another shape.
pub open spec fn listing_params(
    s: Seq<char>,
    i: int,
    filter: Option<Seq<char>>,
    sort: Option<Seq<char>>,
    cursor: Option<Seq<char>>,
) -> (Option<Seq<char>>, Option<Seq<char>>, Option<Seq<char>>)
    decreases s.len() - i,
    via listing_params_decreases
{
    if 0 <= i < s.len() && (s[i] == '?' || s[i] == '&' || s[i] == '#') {
        if occurs_at(s, i + 1, "filter="@) {
            let v = i + 1 + "filter="@.len();
            let e = run_end(s, v, CharClass::ValueChar);
            if e > v {
                listing_params(s, e, Some(s.subrange(v, e)), sort, cursor)
            } else {
                (filter, sort, cursor)
            }
        } else if occurs_at(s, i + 1, "sort="@) {
            let v = i + 1 + "sort="@.len();
            let e = run_end(s, v, CharClass::ValueChar);
            if e > v {
                listing_params(s, e, filter, Some(s.subrange(v, e)), cursor)
            } else {
                (filter, sort, cursor)
            }
        } else if occurs_at(s, i + 1, "cursor="@) {
            let v = i + 1 + "cursor="@.len();
            let e = run_end(s, v, CharClass::ValueChar);
            if e > v {
                listing_params(s, e, filter, sort, Some(s.subrange(v, e)))
            } else {
                (filter, sort, cursor)
            }
        } else {
            (filter, sort, cursor)
        }
    } else {
        (filter, sort, cursor)
    }
}

#[via_fn]
proof fn listing_params_decreases(
    s: Seq<char>,
    i: int,
    filter: Option<Seq<char>>,
    sort: Option<Seq<char>>,
    cursor: Option<Seq<char>>,
) {
    if 0 <= i < s.len() && (s[i] == '?' || s[i] == '&' || s[i] == '#') {
        if occurs_at(s, i + 1, "filter="@) {
            lemma_run_end_bounds(s, i + 1 + "filter="@.len(), CharClass::ValueChar);
        } else if occurs_at(s, i + 1, "sort="@) {
            lemma_run_end_bounds(s, i + 1 + "sort="@.len(), CharClass::ValueChar);
        } else if occurs_at(s, i + 1, "cursor="@) {
            lemma_run_end_bounds(s, i + 1 + "cursor="@.len(), CharClass::ValueChar);
        }
    }
}

/// `www.twitch.tv/{channel}/videos`, with optional listing parameters.
pub open spec fn channel_videos_ref(s: Seq<char>) -> Option<MatchView> {
    match after_www(s) {
        Some(p) => {
            let e = run_end(s, p, CharClass::NameChar);
            if e > p && occurs_at(s, e, "/videos"@) {
                let params = listing_params(s, e + "/videos"@.len(), None, None, None);
                Some(
                    MatchView::ChannelVideos(
                        s.subrange(p, e),
                        match params.0 {
                            Some(f) => f,
                            None => "all"@,
                        },
                        match params.1 {
                            Some(o) => o,
                            None => "time"@,
                        },
                        params.2,
                    ),
                )
            } else {
                None
            }
        },
        None => None,
    }
}

/// `www.twitch.tv/{channel}`: the name as written, before lower-casing.
pub open spec fn channel_name(s: Seq<char>) -> Option<Seq<char>> {
    match after_www(s) {
        Some(p) => run_at(s, p, CharClass::NameChar),
        None => None,
    }
}

/// What a URL refers to; no match at all when no client identifier is configured.
pub open spec fn classify(s: Seq<char>, configured: bool) -> Option<MatchView> {
    if !configured {
        None
    } else if clip_slug(s) is Some {
        Some(MatchView::Clip(clip_slug(s)->0))
    } else if video_id(s) is Some {
        Some(MatchView::Video(video_id(s)->0))
    } else if channel_videos_ref(s) is Some {
        channel_videos_ref(s)
    } else if channel_name(s) is Some {
        Some(MatchView::Channel(lowercase_of(channel_name(s)->0)))
    } else {
        None
    }
}

pub open spec fn match_view(r: Option<TwitchMatch>) -> Option<MatchView> {
    match r {
        Some(m) => Some(m@),
        None => None,
    }
}

fn after_host_exec(s: &str, len: usize, host: &str) -> (r: Option<usize>)
    requires
        len == s@.len(),
    ensures
        match r {
            Some(p) => after_host(s@, host@) == Some(p as int) && p <= len,
            None => after_host(s@, host@) is None,
        },
{
    let n = host.unicode_len();
    let secure = "https://";
    let plain = "http://";
    let ns = secure.unicode_len();
    let np = plain.unicode_len();
    if occurs_at_exec(s, len, 0, secure) && occurs_at_exec(s, len, ns, host) {
        Some(ns + n)
    } else if occurs_at_exec(s, len, 0, plain) && occurs_at_exec(s, len, np, host) {
        Some(np + n)
    } else {
        None
    }
}

fn run_at_exec(s: &str, len: usize, p: usize, class: CharClass) -> (r: Option<String>)
    requires
        len == s@.len(),
        p <= len,
    ensures
        r.deep_view() == run_at(s@, p as int, class),
{
    let e = run_end_exec(s, len, p, class);
    if e > p {
        Some(slice_owned(s, p, e))
    } else {
        None
    }
}

fn clip_slug_exec(s: &str, len: usize) -> (r: Option<String>)
    requires
        len == s@.len(),
    ensures
        r.deep_view() == clip_slug(s@),
{
    if let Some(p) = after_host_exec(s, len, "clips.twitch.tv/") {
        let r = run_at_exec(s, len, p, CharClass::NameChar);
        if r.is_some() {
            return r;
        }
    }
    if let Some(p) = after_host_exec(s, len, "www.twitch.tv/") {
        let g = run_end_exec(s, len, p, CharClass::SegmentChar);
        let lit = "/clip/";
        if g > p && occurs_at_exec(s, len, g, lit) {
            return run_at_exec(s, len, g + lit.unicode_len(), CharClass::NameChar);
        }
    }
    None
}

fn player_video_at_exec(s: &str, len: usize, j: usize) -> (r: Option<String>)
    requires
        len == s@.len(),
    ensures
        r.deep_view() == player_video_at(s@, j as int),
{
    if j >= len {
        return None;
    }
    let c = s.get_char(j);
    let lit = "video=";
    if (c == '?' || c == '&') && occurs_at_exec(s, len, j + 1, lit) {
        let k = j + 1 + lit.unicode_len();
        if k < len && s.get_char(k) == 'v' {
            run_at_exec(s, len, k + 1, CharClass::Digit)
        } else {
            run_at_exec(s, len, k, CharClass::Digit)
        }
    } else {
        None
    }
}

fn video_on_player_exec(s: &str, len: usize) -> (r: Option<String>)
    requires
        len == s@.len(),
    ensures
        r.deep_view() == video_on_player(s@),
{
    let start = after_host_exec(s, len, "player.twitch.tv/");
    match start {
        Some(p) => {
            let h = run_end_exec(s, len, p, CharClass::NonFragment);
            let mut j: usize = h;
            while j >= p
                invariant
                    len == s@.len(),
                    p <= h <= len,
                    video_on_player(s@) == last_player_video(s@, p as int, h as int),
                    j <= h,
                    j + 1 >= p,
                    last_player_video(s@, p as int, h as int) == last_player_video(
                        s@,
                        p as int,
                        j as int,
                    ),
                decreases j + 1 - p,
            {
                let r = player_video_at_exec(s, len, j);
                proof {
                    reveal_with_fuel(last_player_video, 2);
                }
                if r.is_some() {
                    return r;
                }
                if j == 0 {
                    return None;
                }
                j = j - 1;
            }
            None
        },
        None => None,
    }
}

fn video_id_exec(s: &str, len: usize) -> (r: Option<String>)
    requires
        len == s@.len(),
    ensures
        r.deep_view() == video_id(s@),
{
    if let Some(p) = after_host_exec(s, len, "www.twitch.tv/") {
        let lit = "videos/";
        if occurs_at_exec(s, len, p, lit) {
            let r = run_at_exec(s, len, p + lit.unicode_len(), CharClass::Digit);
            if r.is_some() {
                return r;
            }
        }
        let g = run_end_exec(s, len, p, CharClass::SegmentChar);
        let short = "/v/";
        let long = "/video/";
        if g > p && occurs_at_exec(s, len, g, short) {
            let r = run_at_exec(s, len, g + short.unicode_len(), CharClass::Digit);
            if r.is_some() {
                return r;
            }
        } else if g > p && occurs_at_exec(s, len, g, long) {
            let r = run_at_exec(s, len, g + long.unicode_len(), CharClass::Digit);
            if r.is_some() {
                return r;
            }
        }
    }
    video_on_player_exec(s, len)
}

/// Reads the value of a listing parameter whose name, with its `=`, is `key` and whose
/// separator stands at `i`: the value and the index past it.
fn listing_value_exec(s: &str, len: usize, i: usize, key: &str) -> (r: Option<(String, usize)>)
    requires
        len == s@.len(),
        i < len,
    ensures
        match r {
            Some((v, e)) => {
                let b = i + 1 + key@.len();
                &&& occurs_at(s@, i + 1, key@)
                &&& e == run_end(s@, b, CharClass::ValueChar)
                &&& e > b
                &&& e <= len
                &&& v@ == s@.subrange(b, e as int)
            },
            None => !occurs_at(s@, i + 1, key@) || run_end(
                s@,
                i + 1 + key@.len(),
                CharClass::ValueChar,
            ) <= i + 1 + key@.len(),
        },
{
    if occurs_at_exec(s, len, i + 1, key) {
        let b = i + 1 + key.unicode_len();
        let e = run_end_exec(s, len, b, CharClass::ValueChar);
        if e > b {
            return Some((slice_owned(s, b, e), e));
        }
    }
    None
}

fn channel_videos_exec(s: &str, len: usize) -> (r: Option<TwitchMatch>)
    requires
        len == s@.len(),
    ensures
        match_view(r) == channel_videos_ref(s@),
{
    let p = match after_host_exec(s, len, "www.twitch.tv/") {
        Some(p) => p,
        None => {
            return None;
        },
    };
    let e = run_end_exec(s, len, p, CharClass::NameChar);
    let lit = "/videos";
    if !(e > p && occurs_at_exec(s, len, e, lit)) {
        return None;
    }
    let start = e + lit.unicode_len();
    let mut i: usize = start;
    let mut filter: Option<String> = None;
    let mut sort: Option<String> = None;
    let mut cursor: Option<String> = None;
    let ghost whole = listing_params(s@, start as int, None, None, None);
    while i < len
        invariant
            len == s@.len(),
            start <= i <= len,
            after_www(s@) == Some(p as int),
            e == run_end(s@, p as int, CharClass::NameChar),
            p < e <= len,
            occurs_at(s@, e as int, "/videos"@),
            start == e + "/videos"@.len(),
            whole == listing_params(s@, start as int, None, None, None),
            listing_params(s@, i as int, filter.deep_view(), sort.deep_view(), cursor.deep_view())
                == whole,
        ensures
            after_www(s@) == Some(p as int),
            e == run_end(s@, p as int, CharClass::NameChar),
            p < e <= len,
            occurs_at(s@, e as int, "/videos"@),
            whole == listing_params(s@, start as int, None, None, None),
            whole == (filter.deep_view(), sort.deep_view(), cursor.deep_view()),
        decreases len - i,
    {
        let c = s.get_char(i);
        if !(c == '?' || c == '&' || c == '#') {
            break;
        }
        if occurs_at_exec(s, len, i + 1, "filter=") {
            match listing_value_exec(s, len, i, "filter=") {
                Some((v, next)) => {
                    filter = Some(v);
                    i = next;
                },
                None => {
                    break;
                },
            }
        } else if occurs_at_exec(s, len, i + 1, "sort=") {
            match listing_value_exec(s, len, i, "sort=") {
                Some((v, next)) => {
                    sort = Some(v);
                    i = next;
                },
                None => {
                    break;
                },
            }
        } else if occurs_at_exec(s, len, i + 1, "cursor=") {
            match listing_value_exec(s, len, i, "cursor=") {
                Some((v, next)) => {
                    cursor = Some(v);
                    i = next;
                },
                None => {
                    break;
                },
            }
        } else {
            break;
        }
    }
    let filter = match filter {
        Some(f) => f,
        None => String::from_str("all"),
    };
    let sort = match sort {
        Some(o) => o,
        None => String::from_str("time"),
    };
    Some(TwitchMatch::ChannelVideos(slice_owned(s, p, e), filter, sort, cursor))
}

/// Classifies `url`. Nothing is matched while no client identifier is configured;
/// otherwise the clip, video, channel-listing and channel shapes are tried in that order,
/// and the first that fits gives the result.
pub fn probe(url: &str, client_id: &Option<String>) -> (r: Option<TwitchMatch>)
    ensures
        match_view(r) == classify(url@, client_id is Some),
{
    if client_id.is_none() {
        return None;
    }
    let len = url.unicode_len();
    if let Some(slug) = clip_slug_exec(url, len) {
        return Some(TwitchMatch::Clip(slug));
    }
    if let Some(id) = video_id_exec(url, len) {
        return Some(TwitchMatch::Video(id));
    }
    let listing = channel_videos_exec(url, len);
    if listing.is_some() {
        return listing;
    }
    if let Some(p) = after_host_exec(url, len, "www.twitch.tv/") {
        let e = run_end_exec(url, len, p, CharClass::NameChar);
        if e > p {
            let name = url.substring_char(p, e);
            return Some(TwitchMatch::Channel(lowercase(name)));
        }
    }
    None
}

/// A URL that has the shape of a clip is classified as that clip, even where it also
/// has the shape of a channel, a video or a channel listing.
pub proof fn lemma_clip_takes_precedence(s: Seq<char>)
    requires
        clip_slug(s) is Some,
    ensures
        classify(s, true) == Some(MatchView::Clip(clip_slug(s)->0)),
        channel_name(s) is Some ==> !(classify(s, true) matches Some(MatchView::Channel(_))),
{
}

/// Classification is a function of the URL and of whether a client identifier is
/// configured: two results of `probe` on the same input agree.
pub proof fn lemma_classification_deterministic(
    url: Seq<char>,
    configured: bool,
    r1: Option<TwitchMatch>,
    r2: Option<TwitchMatch>,
)
    requires
        match_view(r1) == classify(url, configured),
        match_view(r2) == classify(url, configured),
    ensures
        match_view(r1) == match_view(r2),
{
}

/// `https://www.twitch.tv/{channel}/videos` with no query is the first page of the
/// channel's whole listing, sorted by time.
pub proof fn lemma_bare_listing_defaults(channel: Seq<char>)
    requires
        channel.len() > 0,
        forall|k: int| 0 <= k < channel.len() ==> in_class(CharClass::NameChar, #[trigger] channel[k]),
    ensures
        classify("https://"@ + "www.twitch.tv/"@ + channel + "/videos"@, true) == Some(
            MatchView::ChannelVideos(channel, "all"@, "time"@, None),
        ),
{
    reveal_strlit("https://");
    reveal_strlit("http://");
    reveal_strlit("www.twitch.tv/");
    reveal_strlit("clips.twitch.tv/");
    reveal_strlit("player.twitch.tv/");
    reveal_strlit("/clip/");
    reveal_strlit("videos/");
    reveal_strlit("/v/");
    reveal_strlit("/video/");
    reveal_strlit("/videos");
    let a = "https://"@;
    let w = "www.twitch.tv/"@;
    let v = "/videos"@;
    let u = a + w + channel + v;
    let n = channel.len() as int;
    assert(u.len() == 29 + n);
    assert(forall|k: int| 0 <= k < n ==> u[22 + k] == channel[k]);
    assert(forall|k: int| 0 <= k < 7 ==> u[22 + n + k] == v[k]);
    assert(u.subrange(0, 8) =~= a);
    assert(u.subrange(8, 22) =~= w);
    assert(after_www(u) == Some(22int));
    lemma_mismatch(u, 0, "http://"@, 4);
    lemma_mismatch(u, 8, "clips.twitch.tv/"@, 0);
    lemma_mismatch(u, 8, "player.twitch.tv/"@, 0);
    assert(clip_on_clip_host(u) is None);
    assert(video_on_player(u) is None);
    assert(forall|k: int| 22 <= k < 22 + n ==> in_class(CharClass::NameChar, #[trigger] u[k]));
    assert(forall|k: int| 22 <= k < 22 + n ==> in_class(CharClass::SegmentChar, #[trigger] u[k]));
    lemma_run_end_at(u, 22, 22 + n, CharClass::SegmentChar);
    lemma_run_end_at(u, 22, 22 + n, CharClass::NameChar);
    lemma_mismatch(u, 22 + n, "/clip/"@, 1);
    assert(clip_slug(u) is None);
    lemma_mismatch(u, 22 + n, "/v/"@, 2);
    lemma_mismatch(u, 22 + n, "/video/"@, 6);
    assert(video_on_channel(u) is None);
    if occurs_at(u, 22, "videos/"@) {
        assert(u.subrange(22, 29)[6] == u[28]);
        if n > 6 {
            assert(u[28] == channel[6]);
        } else if n < 6 {
            assert(u.subrange(22, 29)[n] == u[22 + n]);
        }
        assert(n == 6);
        lemma_run_end_at(u, 29, 29, CharClass::Digit);
    }
    assert(video_on_videos_path(u) is None);
    assert(u.subrange(22 + n, 29 + n) =~= v);
    assert(u.subrange(22, 22 + n) =~= channel);
}

/// The link to a listing's next page leads back to that listing: it is classified as the
/// same channel, filter and sort order, with the page cursor, when none of these is empty
/// and none holds a character that ends it in a URL.
#[verifier::rlimit(60)]
pub proof fn lemma_continuation_round_trip(
    channel: Seq<char>,
    filter: Seq<char>,
    sort: Seq<char>,
    cursor: Seq<char>,
)
    requires
        channel.len() > 0,
        filter.len() > 0,
        sort.len() > 0,
        cursor.len() > 0,
        forall|k: int| 0 <= k < channel.len() ==> in_class(CharClass::NameChar, #[trigger] channel[k]),
        forall|k: int| 0 <= k < filter.len() ==> in_class(CharClass::ValueChar, #[trigger] filter[k]),
        forall|k: int| 0 <= k < sort.len() ==> in_class(CharClass::ValueChar, #[trigger] sort[k]),
        forall|k: int| 0 <= k < cursor.len() ==> in_class(CharClass::ValueChar, #[trigger] cursor[k]),
    ensures
        classify(
            "https://www.twitch.tv/"@ + channel + "/videos?filter="@ + filter + "&sort="@ + sort
                + "&cursor="@ + cursor,
            true,
        ) == Some(MatchView::ChannelVideos(channel, filter, sort, Some(cursor))),
{
    reveal_strlit("https://www.twitch.tv/");
    reveal_strlit("https://");
    reveal_strlit("http://");
    reveal_strlit("www.twitch.tv/");
    reveal_strlit("clips.twitch.tv/");
    reveal_strlit("player.twitch.tv/");
    reveal_strlit("/clip/");
    reveal_strlit("videos/");
    reveal_strlit("/v/");
    reveal_strlit("/video/");
    reveal_strlit("/videos");
    reveal_strlit("/videos?filter=");
    reveal_strlit("&sort=");
    reveal_strlit("&cursor=");
    reveal_strlit("filter=");
    reveal_strlit("sort=");
    reveal_strlit("cursor=");
    let h = "https://www.twitch.tv/"@;
    let l1 = "/videos?filter="@;
    let l2 = "&sort="@;
    let l3 = "&cursor="@;
    let u = h + channel + l1 + filter + l2 + sort + l3 + cursor;
    let n = channel.len() as int;
    let a1 = 22 + n;
    let b1 = a1 + 15;
    let a2 = b1 + filter.len();
    let b2 = a2 + 6;
    let a3 = b2 + sort.len();
    let b3 = a3 + 8;
    let end = b3 + cursor.len();
    assert(u.len() == end);
    assert(forall|k: int| 0 <= k < 22 ==> u[k] == h[k]);
    assert(forall|k: int| 0 <= k < n ==> u[22 + k] == channel[k]);
    assert(forall|k: int| 0 <= k < 15 ==> u[a1 + k] == l1[k]);
    assert(forall|k: int| 0 <= k < filter.len() ==> u[b1 + k] == filter[k]);
    assert(forall|k: int| 0 <= k < 6 ==> u[a2 + k] == l2[k]);
    assert(forall|k: int| 0 <= k < sort.len() ==> u[b2 + k] == sort[k]);
    assert(forall|k: int| 0 <= k < 8 ==> u[a3 + k] == l3[k]);
    assert(forall|k: int| 0 <= k < cursor.len() ==> u[b3 + k] == cursor[k]);
    // the host and the channel segment
    assert(u.subrange(0, 8) =~= "https://"@);
    assert(u.subrange(8, 22) =~= "www.twitch.tv/"@);
    assert(after_www(u) == Some(22int));
    lemma_mismatch(u, 0, "http://"@, 4);
    lemma_mismatch(u, 8, "clips.twitch.tv/"@, 0);
    lemma_mismatch(u, 8, "player.twitch.tv/"@, 0);
    assert(forall|k: int| 22 <= k < a1 ==> in_class(CharClass::NameChar, #[trigger] u[k]));
    assert(forall|k: int| 22 <= k < a1 ==> in_class(CharClass::SegmentChar, #[trigger] u[k]));
    lemma_run_end_at(u, 22, a1, CharClass::SegmentChar);
    lemma_run_end_at(u, 22, a1, CharClass::NameChar);
    // no clip and no video
    lemma_mismatch(u, a1, "/clip/"@, 1);
    lemma_mismatch(u, a1, "/v/"@, 2);
    lemma_mismatch(u, a1, "/video/"@, 6);
    if occurs_at(u, 22, "videos/"@) {
        assert(u.subrange(22, 29)[6] == u[28]);
        if n > 6 {
            assert(u[28] == channel[6]);
        } else if n < 6 {
            assert(u.subrange(22, 29)[n] == u[22 + n]);
        }
        assert(n == 6);
        lemma_run_end_at(u, 29, 29, CharClass::Digit);
    }
    assert(clip_slug(u) is None);
    assert(video_id(u) is None);
    assert(u.subrange(a1, a1 + 7) =~= "/videos"@);
    assert(u.subrange(22, a1) =~= channel);
    // the three parameters
    assert(u.subrange(a1 + 8, b1) =~= "filter="@);
    assert(forall|k: int| b1 <= k < a2 ==> in_class(CharClass::ValueChar, #[trigger] u[k]));
    lemma_run_end_at(u, b1, a2, CharClass::ValueChar);
    assert(u.subrange(b1, a2) =~= filter);
    lemma_mismatch(u, a2 + 1, "filter="@, 0);
    assert(u.subrange(a2 + 1, b2) =~= "sort="@);
    assert(forall|k: int| b2 <= k < a3 ==> in_class(CharClass::ValueChar, #[trigger] u[k]));
    lemma_run_end_at(u, b2, a3, CharClass::ValueChar);
    assert(u.subrange(b2, a3) =~= sort);
    lemma_mismatch(u, a3 + 1, "filter="@, 0);
    lemma_mismatch(u, a3 + 1, "sort="@, 0);
    assert(u.subrange(a3 + 1, b3) =~= "cursor="@);
    assert(forall|k: int| b3 <= k < end ==> in_class(CharClass::ValueChar, #[trigger] u[k]));
    lemma_run_end_at(u, b3, end, CharClass::ValueChar);
    assert(u.subrange(b3, end) =~= cursor);
    assert(listing_params(u, end, Some(filter), Some(sort), Some(cursor)) == (
        Some(filter),
        Some(sort),
        Some(cursor),
    ));
    assert(listing_params(u, a3, Some(filter), Some(sort), None) == (
        Some(filter),
        Some(sort),
        Some(cursor),
    ));
    assert(listing_params(u, a2, Some(filter), None, None) == (
        Some(filter),
        Some(sort),
        Some(cursor),
    ));
    assert(listing_params(u, a1 + 7, None, None, None) == (
        Some(filter),
        Some(sort),
        Some(cursor),
    ));
}

} // verus!
