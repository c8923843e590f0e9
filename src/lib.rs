//! Fetching of paginated, heterogeneously shaped resources of a remote content
//! API under an explicit budget of requests.
//!
//! * `request` builds the URL and the ordered query of every request.
//! * `envelope` holds the decoded response shape and its safe narrowing.
//! * `model`, `posts`, `user_posts`, `post_comments` and `about` project
//!   envelopes into typed results and merge pages.
//! * `fetcher` holds the decisions of a paginated fetch and of the expansion
//!   of comment stubs; the caller performs the requests they ask for.
//! * `peers` keeps the registry of connected WebSocket peers.

pub mod about;
pub mod envelope;
pub mod error;
pub mod feed_request;
pub mod fetcher;
pub mod model;
pub mod params;
pub mod peers;
pub mod post_comments;
pub mod posts;
pub mod request;
pub mod user_posts;
