//! The records exchanged with the HTTP front end, and how an outcome becomes a reply.
use vstd::prelude::*;
use crate::playlist::{PlaylistItem, ResolveError, error_message};
use crate::text::same_text;

verus! {

/// Process configuration.
#[derive(Debug, Clone)]
pub struct AppConfig {
    pub host: String,
    pub port: u16,
    /// The client identifier sent to the backend; without it no URL is matched.
    pub twitch_client_id: Option<String>,
}

/// A request to resolve `url`; `output` is `json` for a JSON playlist, else a redirect.
#[derive(Debug, Clone)]
pub struct ResolveRequest {
    pub url: String,
    pub output: Option<String>,
}

/// What the front end answers.
#[derive(Debug)]
pub enum Reply {
    /// The records, as JSON with status 200.
    Playlist(Vec<PlaylistItem>),
    /// A temporary redirect to this URL.
    Redirect(String),
    /// An empty 404 answer.
    NotFound,
    /// A JSON error object with this status and message.
    Failure { status: u16, message: &'static str },
}

pub open spec fn wants_json(output: Option<Seq<char>>) -> bool {
    output == Some("json"@)
}

/// Whether the request asks for a JSON playlist rather than a redirect.
pub fn asks_for_json(req: &ResolveRequest) -> (r: bool)
    ensures
        r == wants_json(req.output.deep_view()),
{
    match &req.output {
        Some(o) => same_text(o.as_str(), "json"),
        None => false,
    }
}

/// The answer to a resolution outcome. Errors are answered with status 200 when JSON
/// was asked for, since media players cannot read the body of other statuses, and 500
/// otherwise; a redirect goes to the first record.
pub fn reply_for(json: bool, outcome: Result<Vec<PlaylistItem>, ResolveError>) -> (r: Reply)
    ensures
        match outcome {
            Err(e) => r matches Reply::Failure { status, message } && message@ == error_message(e)
                && status == (if json {
                200u16
            } else {
                500u16
            }),
            Ok(v) => if json {
                r matches Reply::Playlist(w) && w == v
            } else if v@.len() > 0 {
                r matches Reply::Redirect(p) && p@ == v@[0].path@
            } else {
                r matches Reply::NotFound
            },
        },
{
    match outcome {
        Err(e) => {
            let status: u16 = if json {
                200
            } else {
                500
            };
            Reply::Failure { status, message: e.message() }
        },
        Ok(v) => {
            if json {
                Reply::Playlist(v)
            } else if v.len() > 0 {
                Reply::Redirect(v[0].path.clone())
            } else {
                Reply::NotFound
            }
        },
    }
}

} // verus!
