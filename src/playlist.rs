//! Playlist records, the decoded backend replies they are made from, and resolution errors.
use vstd::prelude::*;

verus! {

/// One playable (or followable) entry handed back to the caller.
#[derive(Debug, Clone, PartialEq, Eq)]
pub struct PlaylistItem {
    /// A directly fetchable URL, or the continuation URL of a listing.
    pub path: String,
    pub name: String,
    pub description: Option<String>,
    pub language: Option<String>,
    pub artist: Option<String>,
    pub genre: Option<String>,
    pub date: Option<String>,
    /// Length in seconds.
    pub duration: Option<usize>,
}

/// The mathematical value of a [`PlaylistItem`].
pub struct ItemView {
    pub path: Seq<char>,
    pub name: Seq<char>,
    pub description: Option<Seq<char>>,
    pub language: Option<Seq<char>>,
    pub artist: Option<Seq<char>>,
    pub genre: Option<Seq<char>>,
    pub date: Option<Seq<char>>,
    pub duration: Option<usize>,
}

impl View for PlaylistItem {
    type V = ItemView;

    open spec fn view(&self) -> ItemView {
        ItemView {
            path: self.path@,
            name: self.name@,
            description: self.description.deep_view(),
            language: self.language.deep_view(),
            artist: self.artist.deep_view(),
            genre: self.genre.deep_view(),
            date: self.date.deep_view(),
            duration: self.duration,
        }
    }
}

/// A signed pair that authorizes playback.
#[derive(Debug, Clone)]
pub struct AccessToken {
    pub signature: String,
    pub value: String,
}

/// A channel's current broadcast.
#[derive(Debug, Clone)]
pub struct LiveStream {
    pub title: String,
    pub created_at: String,
    pub language: String,
    /// The display name of the game being played.
    pub game: Option<String>,
    pub token: AccessToken,
}

/// A channel as the backend describes it.
#[derive(Debug, Clone)]
pub struct ChannelNode {
    pub display_name: Option<String>,
    pub stream: Option<LiveStream>,
}

/// A video on demand as the backend describes it.
#[derive(Debug, Clone)]
pub struct VideoNode {
    pub id: Option<String>,
    pub title: String,
    pub description: Option<String>,
    /// The display name of the owning channel.
    pub owner: Option<String>,
    pub game: Option<String>,
    pub recorded_at: String,
    /// A compound duration such as `1h20m0s`.
    pub duration: String,
    pub language: String,
    pub token: Option<AccessToken>,
}

/// A clip as the backend describes it.
#[derive(Debug, Clone)]
pub struct ClipNode {
    pub title: String,
    /// The display name of the broadcaster.
    pub broadcaster: String,
    pub game: Option<String>,
    pub created_at: String,
    pub duration_seconds: usize,
    pub language: String,
    /// Its `value` is itself a JSON document that holds the clip's media URI.
    pub token: AccessToken,
}

/// One entry of a channel's video listing.
#[derive(Debug, Clone)]
pub struct VideoEdge {
    pub cursor: String,
    pub node: VideoNode,
}

/// One page of a channel's video listing.
#[derive(Debug, Clone)]
pub struct VideoPage {
    /// The display name of the channel.
    pub display_name: String,
    pub edges: Vec<VideoEdge>,
    pub has_next_page: bool,
}

/// The outcome of decoding a backend reply whose top-level entity may be null.
#[derive(Debug, Clone)]
pub enum Decoded<T> {
    /// The body did not have the expected shape.
    Malformed,
    /// The entity was null.
    Null,
    Found(T),
}

/// The backend field found null.
#[derive(Debug, Clone, Copy, PartialEq, Eq)]
pub enum NullField {
    Channel,
    User,
    Video,
    PlaybackAccessToken,
    Clip,
}

/// Why a match could not be resolved.
#[derive(Debug, Clone, PartialEq, Eq)]
pub enum ResolveError {
    /// The URL matched no known shape, or no client identifier is configured.
    NoMatch,
    /// The channel is on the deny list.
    Blocked,
    /// The name is one of the platform's own path segments, not a channel.
    Unsupported,
    /// The backend answered with a status other than 200.
    UpstreamHttp { status: u16, body: String },
    /// The backend's body did not have the expected shape.
    UpstreamDecode,
    /// The backend reported the entity, or a field it needs, as null.
    NotFound(NullField),
    /// The channel exists but is not live.
    Offline,
    /// A clip's token value did not hold a media URI.
    TokenDecode,
}

pub open spec fn error_message(e: ResolveError) -> Seq<char> {
    match e {
        ResolveError::NoMatch => "no match"@,
        ResolveError::Blocked => "payment required"@,
        ResolveError::Unsupported => "unsupported channel name"@,
        ResolveError::UpstreamHttp { .. } => "received non-200 response from Twitch"@,
        ResolveError::UpstreamDecode => "error deserializing data"@,
        ResolveError::NotFound(NullField::Channel) => "channel does not exist"@,
        ResolveError::NotFound(NullField::User) => "user is null"@,
        ResolveError::NotFound(NullField::Video) => "video is null"@,
        ResolveError::NotFound(NullField::PlaybackAccessToken) => "playback_access_token is null"@,
        ResolveError::NotFound(NullField::Clip) => "clip is null"@,
        ResolveError::Offline => "channel is not live"@,
        ResolveError::TokenDecode => "error deserializing token_value"@,
    }
}

impl ResolveError {
    /// A human-readable description of the error.
    pub fn message(&self) -> (r: &'static str)
        ensures
            r@ == error_message(*self),
    {
        match self {
            ResolveError::NoMatch => "no match",
            ResolveError::Blocked => "payment required",
            ResolveError::Unsupported => "unsupported channel name",
            ResolveError::UpstreamHttp { .. } => "received non-200 response from Twitch",
            ResolveError::UpstreamDecode => "error deserializing data",
            ResolveError::NotFound(NullField::Channel) => "channel does not exist",
            ResolveError::NotFound(NullField::User) => "user is null",
            ResolveError::NotFound(NullField::Video) => "video is null",
            ResolveError::NotFound(NullField::PlaybackAccessToken) => "playback_access_token is null",
            ResolveError::NotFound(NullField::Clip) => "clip is null",
            ResolveError::Offline => "channel is not live",
            ResolveError::TokenDecode => "error deserializing token_value",
        }
    }
}

/// A timestamp with each `T` turned into a space and each `Z` removed.
pub open spec fn date_text(s: Seq<char>) -> Seq<char>
    decreases s.len(),
{
    if s.len() == 0 {
        Seq::empty()
    } else {
        let rest = date_text(s.drop_last());
        let c = s.last();
        if c == 'T' {
            rest.push(' ')
        } else if c == 'Z' {
            rest
        } else {
            rest.push(c)
        }
    }
}

/// Turns an ISO-8601 timestamp into the space-separated form shown to users.
pub fn display_date(s: &str) -> (r: String)
    ensures
        r@ == date_text(s@),
{
    let len = s.unicode_len();
    let mut out = String::new();
    let mut i: usize = 0;
    while i < len
        invariant
            len == s@.len(),
            i <= len,
            out@ == date_text(s@.take(i as int)),
        decreases len - i,
    {
        let c = s.get_char(i);
        proof {
            assert(s@.take(i as int + 1).drop_last() == s@.take(i as int));
            assert(s@.take(i as int + 1).last() == c);
        }
        if c == 'T' {
            out.append(" ");
            proof {
                reveal_strlit(" ");
            }
        } else if c != 'Z' {
            out.append(s.substring_char(i, i + 1));
            proof {
                assert(s@.subrange(i as int, i + 1) =~= seq![c]);
            }
        }
        proof {
            assert(out@ =~= date_text(s@.take(i as int + 1)));
        }
        i = i + 1;
    }
    proof {
        assert(s@.take(len as int) == s@);
    }
    out
}

} // verus!
