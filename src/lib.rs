//! Resolves media page URLs of a streaming platform into playable playlist records.
//!
//! The library classifies a URL into an entity reference, builds the backend query for it,
//! and maps the decoded backend reply into playlist items. Network transport, configuration
//! loading and JSON decoding into typed replies are left to the caller.
pub mod duration;
pub mod text;
pub mod matcher;
pub mod playlist;
pub mod resolve;
pub mod request;
pub mod front;

use vstd::prelude::*;

verus! {

} // verus!
