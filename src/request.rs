//! The backend request for a match: the policy checks made before any network call, and
//! the GraphQL request body.
use vstd::prelude::*;
use crate::matcher::{MatchView, TwitchMatch};
use crate::playlist::ResolveError;
use crate::text::same_text;

verus! {

/// The backend's GraphQL endpoint.
pub const GRAPHQL_URL: &'static str = "https://gql.twitch.tv/gql";

/// The query for a live channel and its current stream.
pub const CHANNEL_QUERY: &'static str = "query Channel($channelName: String!, $platform: String!, $playerType: String!) {
  channel(name: $channelName) {
    displayName
    stream {
      title
      createdAt
      language
      game {
        displayName
      }
      playbackAccessToken(params: {platform: $platform, playerType: $playerType}) {
        signature
        value
      }
    }
  }
}
";

/// The query for one page of a channel's videos.
pub const CHANNEL_VIDEOS_QUERY: &'static str = "query ChannelVideos($login: String!, $type: BroadcastType, $sort: VideoSort, $limit: Int, $cursor: Cursor) {
  user(login: $login) {
    displayName
    videos(type: $type, sort: $sort, first: $limit, after: $cursor) {
      edges {
        cursor
        node {
          id
          title
          description
          owner {
            displayName
          }
          game {
            displayName
          }
          recordedAt
          duration
          language
        }
      }
      pageInfo {
        hasNextPage
      }
    }
  }
}
";

/// The query for a video on demand.
pub const VIDEO_QUERY: &'static str = "query Video($vodID: ID!, $platform: String!, $playerType: String!) {
  video(id: $vodID) {
    id
    title
    description
    owner {
      displayName
    }
    game {
      displayName
    }
    recordedAt
    duration
    language
    playbackAccessToken(params: {platform: $platform, playerType: $playerType}) {
      signature
      value
    }
  }
}
";

/// The query for a clip.
pub const CLIP_QUERY: &'static str = "query Clip($slug: ID!, $platform: String!, $playerType: String!) {
  clip(slug: $slug) {
    title
    broadcaster {
      displayName
    }
    game {
      displayName
    }
    createdAt
    durationSeconds
    language
    playbackAccessToken(params: {platform: $platform, playerType: $playerType}) {
      signature
      value
    }
  }
}
";

/// The result of upper-casing a string, character by character as Unicode defines it.
pub uninterp spec fn uppercase_of(s: Seq<char>) -> Seq<char>;

/// Relies on `str::to_uppercase`, whose result depends on the characters alone.
#[verifier::external_body]
fn uppercase(s: &str) -> (r: String)
    ensures
        r@ == uppercase_of(s@),
{
    s.to_uppercase()
}

/// A string written as a JSON string literal: quoted, with `"`, `\` and control
/// characters escaped.
pub uninterp spec fn json_text_of(s: Seq<char>) -> Seq<char>;

/// Relies on `serde_json::to_string` on a `str`, which writes the escaped literal into
/// memory and cannot fail there.
#[verifier::external_body]
fn json_string(s: &str) -> (r: String)
    ensures
        r@ == json_text_of(s@),
{
    serde_json::to_string(s).unwrap_or_default()
}

/// The backend's broadcast type for a listing filter, from the filter and its upper-cased
/// form: none for `all`, else the upper-cased form without its last character
/// (`archives` gives `ARCHIVE`). Other spellings pass through the same transform.
pub open spec fn broadcast_type(filter: Seq<char>, upper: Seq<char>) -> Option<Seq<char>> {
    if filter == "all"@ {
        None
    } else if upper.len() == 0 {
        Some(upper)
    } else {
        Some(upper.drop_last())
    }
}

/// The broadcast type for `filter`, given `upper`, the filter upper-cased.
pub fn broadcast_type_from_upper(filter: &str, upper: &str) -> (r: Option<String>)
    ensures
        r.deep_view() == broadcast_type(filter@, upper@),
{
    if same_text(filter, "all") {
        return None;
    }
    let n = upper.unicode_len();
    if n == 0 {
        return Some(String::new());
    }
    Some(String::from_str(upper.substring_char(0, n - 1)))
}

/// The backend's broadcast type for a listing filter.
pub fn filter_to_broadcast_type(filter: &str) -> (r: Option<String>)
    ensures
        r.deep_view() == broadcast_type(filter@, uppercase_of(filter@)),
{
    let upper = uppercase(filter);
    broadcast_type_from_upper(filter, upper.as_str())
}

/// A channel that is refused to curb traffic.
pub open spec fn is_blocked(name: Seq<char>) -> bool {
    name == "twit"@
}

/// A path segment of the platform's own pages, which is no channel.
pub open spec fn is_reserved(name: Seq<char>) -> bool {
    name == "directory"@ || name == "recaps"@
}

pub open spec fn json_or_null(o: Option<Seq<char>>) -> Seq<char> {
    match o {
        Some(s) => json_text_of(s),
        None => "null"@,
    }
}

pub open spec fn channel_request(name: Seq<char>) -> Seq<char> {
    "{\"query\":"@ + json_text_of(CHANNEL_QUERY@) + ",\"variables\":{\"channelName\":"@
        + json_text_of(name) + ",\"platform\":\"web\",\"playerType\":\"site\"}}"@
}

pub open spec fn listing_request(
    name: Seq<char>,
    filter: Seq<char>,
    sort: Seq<char>,
    cursor: Option<Seq<char>>,
) -> Seq<char> {
    "{\"query\":"@ + json_text_of(CHANNEL_VIDEOS_QUERY@) + ",\"variables\":{\"cursor\":"@
        + json_or_null(cursor) + ",\"limit\":30,\"login\":"@ + json_text_of(name) + ",\"sort\":"@
        + json_text_of(uppercase_of(sort)) + ",\"type\":"@ + json_or_null(
        broadcast_type(filter, uppercase_of(filter)),
    ) + "}}"@
}

pub open spec fn video_request(id: Seq<char>) -> Seq<char> {
    "{\"query\":"@ + json_text_of(VIDEO_QUERY@)
        + ",\"variables\":{\"platform\":\"web\",\"playerType\":\"site\",\"vodID\":"@
        + json_text_of(id) + "}}"@
}

pub open spec fn clip_request(slug: Seq<char>) -> Seq<char> {
    "{\"query\":"@ + json_text_of(CLIP_QUERY@)
        + ",\"variables\":{\"platform\":\"web\",\"playerType\":\"site\",\"slug\":"@
        + json_text_of(slug) + "}}"@
}

/// What resolving a match asks of the backend: the request body, or the error that
/// stops the resolution before any network call.
pub open spec fn request_for(m: MatchView) -> Result<Seq<char>, ResolveError> {
    match m {
        MatchView::Channel(n) => if is_blocked(n) {
            Err(ResolveError::Blocked)
        } else if is_reserved(n) {
            Err(ResolveError::Unsupported)
        } else {
            Ok(channel_request(n))
        },
        MatchView::ChannelVideos(n, f, s, c) => Ok(listing_request(n, f, s, c)),
        MatchView::Video(id) => Ok(video_request(id)),
        MatchView::Clip(slug) => Ok(clip_request(slug)),
    }
}

fn json_or_null_exec(o: &Option<String>) -> (r: String)
    ensures
        r@ == json_or_null(o.deep_view()),
{
    match o {
        Some(s) => json_string(s.as_str()),
        None => String::from_str("null"),
    }
}

/// Routes a match to its backend query: refuses a blocked or reserved channel name, and
/// otherwise gives the JSON body of the one request to send to [`GRAPHQL_URL`].
pub fn backend_request(m: &TwitchMatch) -> (r: Result<String, ResolveError>)
    ensures
        match r {
            Ok(body) => request_for(m@) == Ok::<Seq<char>, ResolveError>(body@),
            Err(e) => request_for(m@) == Err::<Seq<char>, ResolveError>(e),
        },
{
    let mut out = String::from_str("{\"query\":");
    match m {
        TwitchMatch::Channel(name) => {
            if same_text(name.as_str(), "twit") {
                return Err(ResolveError::Blocked);
            }
            if same_text(name.as_str(), "directory") || same_text(name.as_str(), "recaps") {
                return Err(ResolveError::Unsupported);
            }
            out.append(json_string(CHANNEL_QUERY).as_str());
            out.append(",\"variables\":{\"channelName\":");
            out.append(json_string(name.as_str()).as_str());
            out.append(",\"platform\":\"web\",\"playerType\":\"site\"}}");
        },
        TwitchMatch::ChannelVideos(name, filter, sort, cursor) => {
            out.append(json_string(CHANNEL_VIDEOS_QUERY).as_str());
            out.append(",\"variables\":{\"cursor\":");
            out.append(json_or_null_exec(cursor).as_str());
            out.append(",\"limit\":30,\"login\":");
            out.append(json_string(name.as_str()).as_str());
            out.append(",\"sort\":");
            out.append(json_string(uppercase(sort.as_str()).as_str()).as_str());
            out.append(",\"type\":");
            out.append(json_or_null_exec(&filter_to_broadcast_type(filter.as_str())).as_str());
            out.append("}}");
        },
        TwitchMatch::Video(id) => {
            out.append(json_string(VIDEO_QUERY).as_str());
            out.append(",\"variables\":{\"platform\":\"web\",\"playerType\":\"site\",\"vodID\":");
            out.append(json_string(id.as_str()).as_str());
            out.append("}}");
        },
        TwitchMatch::Clip(slug) => {
            out.append(json_string(CLIP_QUERY).as_str());
            out.append(",\"variables\":{\"platform\":\"web\",\"playerType\":\"site\",\"slug\":");
            out.append(json_string(slug.as_str()).as_str());
            out.append("}}");
        },
    }
    Ok(out)
}

} // verus!
