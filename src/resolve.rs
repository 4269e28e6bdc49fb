//! Mapping of decoded backend replies into playlist records.
//!
//! Each resolver takes the HTTP status and body of the one backend call made for its
//! entity, together with the body decoded into the reply model, and yields the records
//! or the error that the reply calls for.
use vstd::prelude::*;
use crate::duration::{duration_seconds, parse_duration, saturate};
use crate::playlist::{
    AccessToken, ChannelNode, ClipNode, Decoded, ItemView, LiveStream, NullField, PlaylistItem,
    ResolveError, VideoEdge, VideoNode, VideoPage, date_text, display_date,
};

verus! {

/// The percent-encoding of a string: every UTF-8 byte but ASCII letters, digits and
/// `-`, `_`, `.`, `~` is written as `%XX`.
pub uninterp spec fn url_encoded(s: Seq<char>) -> Seq<char>;

/// Relies on `urlencoding::encode`, whose result depends on the characters alone.
#[verifier::external_body]
fn percent_encode(s: &str) -> (r: String)
    ensures
        r@ == url_encoded(s@),
{
    urlencoding::encode(s).into_owned()
}

/// The media URI held in the `clip_uri` string field of the JSON object `doc`, if `doc`
/// is such an object.
pub uninterp spec fn clip_uri_in(doc: Seq<char>) -> Option<Seq<char>>;

/// Relies on `serde_json::from_str` into a `serde_json::Value` and `Value::get`: the
/// string under `clip_uri`, or nothing when `doc` is not JSON or holds no such string.
#[verifier::external_body]
fn decode_clip_uri(doc: &str) -> (r: Option<String>)
    ensures
        r.deep_view() == clip_uri_in(doc@),
{
    match serde_json::from_str::<serde_json::Value>(doc) {
        Ok(v) => match v.get("clip_uri") {
            Some(serde_json::Value::String(uri)) => Some(uri.clone()),
            _ => None,
        },
        Err(_) => None,
    }
}

pub open spec fn items_view(v: Seq<PlaylistItem>) -> Seq<ItemView> {
    v.map_values(|i: PlaylistItem| i@)
}

pub open spec fn outcome(r: Result<Vec<PlaylistItem>, ResolveError>) -> Result<
    Seq<ItemView>,
    ResolveError,
> {
    match r {
        Ok(v) => Ok(items_view(v@)),
        Err(e) => Err(e),
    }
}

/// `r` is the error for a backend status other than 200, carrying that status and body.
pub open spec fn is_upstream_failure(
    r: Result<Vec<PlaylistItem>, ResolveError>,
    status: u16,
    body: Seq<char>,
) -> bool {
    match r {
        Err(ResolveError::UpstreamHttp { status: s, body: b }) => s == status && b@ == body,
        _ => false,
    }
}

/// `base` with the playback parameters and the already encoded signature and token.
pub open spec fn with_signature(base: Seq<char>, sig: Seq<char>, token: Seq<char>) -> Seq<char> {
    base + "?allow_source=true&allow_audio_only=true&sig="@ + sig + "&token="@ + token
}

pub open spec fn signed(base: Seq<char>, t: AccessToken) -> Seq<char> {
    with_signature(base, url_encoded(t.signature@), url_encoded(t.value@))
}

/// Appends the playback parameters to `base`, with a signature and a token that are
/// already percent-encoded.
pub fn append_signature(base: &str, sig: &str, token: &str) -> (r: String)
    ensures
        r@ == with_signature(base@, sig@, token@),
{
    let mut out = String::from_str(base);
    out.append("?allow_source=true&allow_audio_only=true&sig=");
    out.append(sig);
    out.append("&token=");
    out.append(token);
    out
}

fn sign(base: &str, t: &AccessToken) -> (r: String)
    ensures
        r@ == signed(base@, *t),
{
    let sig = percent_encode(t.signature.as_str());
    let token = percent_encode(t.value.as_str());
    append_signature(base, sig.as_str(), token.as_str())
}

fn clone_opt(o: &Option<String>) -> (r: Option<String>)
    ensures
        r.deep_view() == o.deep_view(),
{
    match o {
        Some(s) => Some(s.clone()),
        None => None,
    }
}

fn check_status(status: u16, body: &str) -> (r: Result<(), ResolveError>)
    ensures
        status == 200 <==> r is Ok,
        match r {
            Err(ResolveError::UpstreamHttp { status: s, body: b }) => s == status && b@ == body@,
            Err(_) => false,
            Ok(_) => true,
        },
{
    if status != 200 {
        Err(ResolveError::UpstreamHttp { status, body: String::from_str(body) })
    } else {
        Ok(())
    }
}

// ---- live channel ----

pub open spec fn live_path(name: Seq<char>) -> Seq<char> {
    "https://usher.ttvnw.net/api/channel/hls/"@ + name + ".m3u8"@
}

pub open spec fn live_item(name: Seq<char>, c: ChannelNode, st: LiveStream) -> ItemView {
    ItemView {
        path: signed(live_path(name), st.token),
        name: st.title@,
        description: None,
        language: Some(st.language@),
        artist: c.display_name.deep_view(),
        genre: st.game.deep_view(),
        date: Some(date_text(st.created_at@)),
        duration: None,
    }
}

pub open spec fn channel_result(name: Seq<char>, reply: Decoded<ChannelNode>) -> Result<
    Seq<ItemView>,
    ResolveError,
> {
    match reply {
        Decoded::Malformed => Err(ResolveError::UpstreamDecode),
        Decoded::Null => Err(ResolveError::NotFound(NullField::Channel)),
        Decoded::Found(c) => match c.stream {
            None => Err(ResolveError::Offline),
            Some(st) => Ok(seq![live_item(name, c, st)]),
        },
    }
}

/// Resolves a live channel from the backend's answer to its channel query.
pub fn channel_playlist(
    channel_name: &str,
    status: u16,
    body: &str,
    reply: Decoded<ChannelNode>,
) -> (r: Result<Vec<PlaylistItem>, ResolveError>)
    ensures
        status != 200 ==> is_upstream_failure(r, status, body@),
        status == 200 ==> outcome(r) == channel_result(channel_name@, reply),
{
    if let Err(e) = check_status(status, body) {
        return Err(e);
    }
    let c = match reply {
        Decoded::Malformed => {
            return Err(ResolveError::UpstreamDecode);
        },
        Decoded::Null => {
            return Err(ResolveError::NotFound(NullField::Channel));
        },
        Decoded::Found(c) => c,
    };
    let st = match &c.stream {
        None => {
            return Err(ResolveError::Offline);
        },
        Some(st) => st,
    };
    let mut base = String::from_str("https://usher.ttvnw.net/api/channel/hls/");
    base.append(channel_name);
    base.append(".m3u8");
    let item = PlaylistItem {
        path: sign(base.as_str(), &st.token),
        name: st.title.clone(),
        description: None,
        language: Some(st.language.clone()),
        artist: clone_opt(&c.display_name),
        genre: clone_opt(&st.game),
        date: Some(display_date(st.created_at.as_str())),
        duration: None,
    };
    let v = vec![item];
    proof {
        assert(items_view(v@) =~= seq![live_item(channel_name@, c, *st)]);
    }
    Ok(v)
}

// ---- video on demand ----

pub open spec fn vod_path(id: Seq<char>) -> Seq<char> {
    "https://usher.ttvnw.net/vod/"@ + id + ".m3u8"@
}

pub open spec fn vod_item(id: Seq<char>, v: VideoNode, t: AccessToken) -> ItemView {
    ItemView {
        path: signed(vod_path(id), t),
        name: v.title@,
        description: v.description.deep_view(),
        language: Some(v.language@),
        artist: v.owner.deep_view(),
        genre: v.game.deep_view(),
        date: Some(date_text(v.recorded_at@)),
        duration: Some(saturate(duration_seconds(v.duration@))),
    }
}

pub open spec fn video_result(id: Seq<char>, reply: Decoded<VideoNode>) -> Result<
    Seq<ItemView>,
    ResolveError,
> {
    match reply {
        Decoded::Malformed => Err(ResolveError::UpstreamDecode),
        Decoded::Null => Err(ResolveError::NotFound(NullField::Video)),
        Decoded::Found(v) => match v.token {
            None => Err(ResolveError::NotFound(NullField::PlaybackAccessToken)),
            Some(t) => Ok(seq![vod_item(id, v, t)]),
        },
    }
}

/// Resolves a video on demand from the backend's answer to its video query.
pub fn video_playlist(video_id: &str, status: u16, body: &str, reply: Decoded<VideoNode>) -> (r:
    Result<Vec<PlaylistItem>, ResolveError>)
    ensures
        status != 200 ==> is_upstream_failure(r, status, body@),
        status == 200 ==> outcome(r) == video_result(video_id@, reply),
{
    if let Err(e) = check_status(status, body) {
        return Err(e);
    }
    let v = match reply {
        Decoded::Malformed => {
            return Err(ResolveError::UpstreamDecode);
        },
        Decoded::Null => {
            return Err(ResolveError::NotFound(NullField::Video));
        },
        Decoded::Found(v) => v,
    };
    let t = match &v.token {
        None => {
            return Err(ResolveError::NotFound(NullField::PlaybackAccessToken));
        },
        Some(t) => t,
    };
    let mut base = String::from_str("https://usher.ttvnw.net/vod/");
    base.append(video_id);
    base.append(".m3u8");
    let item = PlaylistItem {
        path: sign(base.as_str(), t),
        name: v.title.clone(),
        description: clone_opt(&v.description),
        language: Some(v.language.clone()),
        artist: clone_opt(&v.owner),
        genre: clone_opt(&v.game),
        date: Some(display_date(v.recorded_at.as_str())),
        duration: Some(parse_duration(v.duration.as_str())),
    };
    let items = vec![item];
    proof {
        assert(items_view(items@) =~= seq![vod_item(video_id@, v, *t)]);
    }
    Ok(items)
}

// ---- clip ----

pub open spec fn clip_item(c: ClipNode, uri: Seq<char>) -> ItemView {
    ItemView {
        path: signed(uri, c.token),
        name: c.title@,
        description: None,
        language: Some(c.language@),
        artist: Some(c.broadcaster@),
        genre: c.game.deep_view(),
        date: Some(date_text(c.created_at@)),
        duration: Some(c.duration_seconds),
    }
}

pub open spec fn clip_uri_result(c: ClipNode, uri: Option<Seq<char>>) -> Result<
    Seq<ItemView>,
    ResolveError,
> {
    match uri {
        None => Err(ResolveError::TokenDecode),
        Some(u) => Ok(seq![clip_item(c, u)]),
    }
}

pub open spec fn clip_result(reply: Decoded<ClipNode>) -> Result<Seq<ItemView>, ResolveError> {
    match reply {
        Decoded::Malformed => Err(ResolveError::UpstreamDecode),
        Decoded::Null => Err(ResolveError::NotFound(NullField::Clip)),
        Decoded::Found(c) => clip_uri_result(c, clip_uri_in(c.token.value@)),
    }
}

/// Builds the record of a clip whose token value gave `clip_uri` (nothing when that value
/// held no media URI).
pub fn clip_items(clip: &ClipNode, clip_uri: Option<String>) -> (r: Result<
    Vec<PlaylistItem>,
    ResolveError,
>)
    ensures
        outcome(r) == clip_uri_result(*clip, clip_uri.deep_view()),
{
    let uri = match clip_uri {
        None => {
            return Err(ResolveError::TokenDecode);
        },
        Some(u) => u,
    };
    let item = PlaylistItem {
        path: sign(uri.as_str(), &clip.token),
        name: clip.title.clone(),
        description: None,
        language: Some(clip.language.clone()),
        artist: Some(clip.broadcaster.clone()),
        genre: clone_opt(&clip.game),
        date: Some(display_date(clip.created_at.as_str())),
        duration: Some(clip.duration_seconds),
    };
    let items = vec![item];
    proof {
        assert(items_view(items@) =~= seq![clip_item(*clip, uri@)]);
    }
    Ok(items)
}

/// Resolves a clip from the backend's answer to its clip query; the token value is
/// decoded as a second JSON document to find the media URI.
pub fn clip_playlist(status: u16, body: &str, reply: Decoded<ClipNode>) -> (r: Result<
    Vec<PlaylistItem>,
    ResolveError,
>)
    ensures
        status != 200 ==> is_upstream_failure(r, status, body@),
        status == 200 ==> outcome(r) == clip_result(reply),
{
    if let Err(e) = check_status(status, body) {
        return Err(e);
    }
    let c = match reply {
        Decoded::Malformed => {
            return Err(ResolveError::UpstreamDecode);
        },
        Decoded::Null => {
            return Err(ResolveError::NotFound(NullField::Clip));
        },
        Decoded::Found(c) => c,
    };
    let uri = decode_clip_uri(c.token.value.as_str());
    clip_items(&c, uri)
}

// ---- channel video listing ----

pub open spec fn listed_path(id: Seq<char>) -> Seq<char> {
    "https://www.twitch.tv/videos/"@ + id
}

/// The record of one listed video: its page URL, to be resolved when followed.
pub open spec fn listed_item(owner: Seq<char>, e: VideoEdge) -> ItemView {
    ItemView {
        path: listed_path(e.node.id->0@),
        name: e.node.title@,
        description: e.node.description.deep_view(),
        language: Some(e.node.language@),
        artist: Some(owner),
        genre: e.node.game.deep_view(),
        date: Some(date_text(e.node.recorded_at@)),
        duration: Some(saturate(duration_seconds(e.node.duration@))),
    }
}

pub open spec fn load_more_path(
    channel: Seq<char>,
    filter: Seq<char>,
    sort: Seq<char>,
    cursor: Seq<char>,
) -> Seq<char> {
    "https://www.twitch.tv/"@ + channel + "/videos?filter="@ + filter + "&sort="@ + sort
        + "&cursor="@ + cursor
}

/// The trailing record that leads to the next page of a listing.
pub open spec fn load_more_item(
    channel: Seq<char>,
    filter: Seq<char>,
    sort: Seq<char>,
    cursor: Seq<char>,
    owner: Seq<char>,
) -> ItemView {
    ItemView {
        path: load_more_path(channel, filter, sort, cursor),
        name: "Load more"@,
        description: None,
        language: None,
        artist: Some(owner),
        genre: None,
        date: None,
        duration: None,
    }
}

/// Every listed video has an identifier, and a page that announces a next one has a
/// last entry whose cursor leads there.
pub open spec fn listing_complete(pg: VideoPage) -> bool {
    &&& forall|i: int| 0 <= i < pg.edges@.len() ==> (#[trigger] pg.edges@[i]).node.id is Some
    &&& pg.has_next_page ==> pg.edges@.len() > 0
}

pub open spec fn listed_items(pg: VideoPage) -> Seq<ItemView> {
    pg.edges@.map_values(|e: VideoEdge| listed_item(pg.display_name@, e))
}

pub open spec fn listing_items(
    channel: Seq<char>,
    filter: Seq<char>,
    sort: Seq<char>,
    pg: VideoPage,
) -> Seq<ItemView> {
    if pg.has_next_page {
        listed_items(pg).push(
            load_more_item(channel, filter, sort, pg.edges@.last().cursor@, pg.display_name@),
        )
    } else {
        listed_items(pg)
    }
}

pub open spec fn listing_result(
    channel: Seq<char>,
    filter: Seq<char>,
    sort: Seq<char>,
    reply: Decoded<VideoPage>,
) -> Result<Seq<ItemView>, ResolveError> {
    match reply {
        Decoded::Malformed => Err(ResolveError::UpstreamDecode),
        Decoded::Null => Err(ResolveError::NotFound(NullField::User)),
        Decoded::Found(pg) => if listing_complete(pg) {
            Ok(listing_items(channel, filter, sort, pg))
        } else {
            Err(ResolveError::UpstreamDecode)
        },
    }
}

/// Resolves one page of a channel's video listing from the backend's answer to its
/// listing query. `filter` and `sort` are those of the match, carried into the link to
/// the next page.
pub fn channel_videos_playlist(
    channel_name: &str,
    filter: &str,
    sort: &str,
    status: u16,
    body: &str,
    reply: Decoded<VideoPage>,
) -> (r: Result<Vec<PlaylistItem>, ResolveError>)
    ensures
        status != 200 ==> is_upstream_failure(r, status, body@),
        status == 200 ==> outcome(r) == listing_result(channel_name@, filter@, sort@, reply),
{
    if let Err(e) = check_status(status, body) {
        return Err(e);
    }
    let pg = match reply {
        Decoded::Malformed => {
            return Err(ResolveError::UpstreamDecode);
        },
        Decoded::Null => {
            return Err(ResolveError::NotFound(NullField::User));
        },
        Decoded::Found(pg) => pg,
    };
    let n = pg.edges.len();
    let mut items: Vec<PlaylistItem> = Vec::new();
    let mut i: usize = 0;
    while i < n
        invariant
            n == pg.edges@.len(),
            i <= n,
            status == 200,
            reply == Decoded::Found(pg),
            items_view(items@) =~= listed_items(pg).take(i as int),
            forall|k: int| 0 <= k < i ==> (#[trigger] pg.edges@[k]).node.id is Some,
        decreases n - i,
    {
        let e = &pg.edges[i];
        let id = match &e.node.id {
            None => {
                proof {
                    assert(!listing_complete(pg));
                }
                return Err(ResolveError::UpstreamDecode);
            },
            Some(id) => id,
        };
        let mut path = String::from_str("https://www.twitch.tv/videos/");
        path.append(id.as_str());
        let item = PlaylistItem {
            path,
            name: e.node.title.clone(),
            description: clone_opt(&e.node.description),
            language: Some(e.node.language.clone()),
            artist: Some(pg.display_name.clone()),
            genre: clone_opt(&e.node.game),
            date: Some(display_date(e.node.recorded_at.as_str())),
            duration: Some(parse_duration(e.node.duration.as_str())),
        };
        let ghost before = items@;
        proof {
            assert(item@ == listed_item(pg.display_name@, *e));
            assert(listed_items(pg)[i as int] == item@);
        }
        items.push(item);
        proof {
            assert(items_view(items@) =~= items_view(before).push(item@));
            assert(listed_items(pg).take(i + 1) =~= listed_items(pg).take(i as int).push(
                listed_items(pg)[i as int],
            ));
        }
        i = i + 1;
    }
    proof {
        assert(listed_items(pg).take(n as int) =~= listed_items(pg));
    }
    if pg.has_next_page {
        if n == 0 {
            return Err(ResolveError::UpstreamDecode);
        }
        let last = &pg.edges[n - 1];
        let mut path = String::from_str("https://www.twitch.tv/");
        path.append(channel_name);
        path.append("/videos?filter=");
        path.append(filter);
        path.append("&sort=");
        path.append(sort);
        path.append("&cursor=");
        path.append(last.cursor.as_str());
        let more = PlaylistItem {
            path,
            name: String::from_str("Load more"),
            description: None,
            language: None,
            artist: Some(pg.display_name.clone()),
            genre: None,
            date: None,
            duration: None,
        };
        items.push(more);
    }
    proof {
        assert(items_view(items@) =~= listing_items(channel_name@, filter@, sort@, pg));
    }
    Ok(items)
}

/// A channel, video or clip that resolves yields exactly one record.
pub proof fn lemma_single_record(
    name: Seq<char>,
    id: Seq<char>,
    channel: Decoded<ChannelNode>,
    video: Decoded<VideoNode>,
    clip: Decoded<ClipNode>,
)
    ensures
        channel_result(name, channel) matches Ok(items) ==> items.len() == 1,
        video_result(id, video) matches Ok(items) ==> items.len() == 1,
        clip_result(clip) matches Ok(items) ==> items.len() == 1,
{
}

/// A channel listing that resolves yields one record per listed video, followed by one
/// "Load more" record exactly when the backend reports a further page.
pub proof fn lemma_listing_shape(
    channel: Seq<char>,
    filter: Seq<char>,
    sort: Seq<char>,
    reply: Decoded<VideoPage>,
)
    ensures
        listing_result(channel, filter, sort, reply) matches Ok(items) ==> {
            &&& reply matches Decoded::Found(pg)
            &&& items.len() == pg.edges@.len() + if pg.has_next_page {
                1int
            } else {
                0int
            }
            &&& forall|i: int| 0 <= i < pg.edges@.len() ==> #[trigger] items[i] == listed_item(
                pg.display_name@,
                pg.edges@[i],
            )
            &&& pg.has_next_page ==> items.last().name == "Load more"@ && items.last().duration
                is None && items.last().date is None
        },
{
}

/// A reply whose top-level entity is null means that the entity does not exist, and a
/// channel without a stream is offline.
pub proof fn lemma_null_entity_errors(
    name: Seq<char>,
    id: Seq<char>,
    filter: Seq<char>,
    sort: Seq<char>,
    offline: ChannelNode,
)
    requires
        offline.stream is None,
    ensures
        channel_result(name, Decoded::Null) == Err::<Seq<ItemView>, ResolveError>(
            ResolveError::NotFound(NullField::Channel),
        ),
        video_result(id, Decoded::Null) == Err::<Seq<ItemView>, ResolveError>(
            ResolveError::NotFound(NullField::Video),
        ),
        clip_result(Decoded::Null) == Err::<Seq<ItemView>, ResolveError>(
            ResolveError::NotFound(NullField::Clip),
        ),
        listing_result(name, filter, sort, Decoded::Null) == Err::<Seq<ItemView>, ResolveError>(
            ResolveError::NotFound(NullField::User),
        ),
        channel_result(name, Decoded::Found(offline)) == Err::<Seq<ItemView>, ResolveError>(
            ResolveError::Offline,
        ),
{
}

} // verus!
