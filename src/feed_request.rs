use vstd::prelude::*;
use crate::params::FeedSorting;

verus! {

/// What kind of feed is fetched and reported on.
#[derive(Debug, Clone, Copy, PartialEq, Eq, Structural)]
pub enum RedditFeedKind {
    UserPosts,
    PostComments,
    SubredditPosts,
}

/// Which analysis reports are wanted for a feed.
#[derive(Debug, Clone, Copy, PartialEq, Eq, Structural)]
pub enum RMoodsReportType {
    Sentiment,
    Sarcasm,
    Etc,
}

/// A data source: a user, a subreddit, or a post of a subreddit.
///
/// * `post_id` is only meaningful when fetching the comments of a post.
/// * `share` is the part of the report this source stands for, in
///   ten-thousandths: 10000 is the whole report. The shares of the sources of
///   one report are meant to add up to 10000; nothing here enforces it.
#[derive(Debug, Clone)]
pub struct DataSource {
    pub name: String,
    pub post_id: Option<String>,
    pub share: u16,
}

/// How many page requests a feed fetch may make.
#[derive(Debug, Clone, Copy, PartialEq, Eq, Structural)]
pub enum RequestSize {
    Small,
    Medium,
    Large,
    Custom(u16),
}

impl RequestSize {
    /// The number of page requests the size stands for.
    pub open spec fn requests(self) -> u16 {
        match self {
            RequestSize::Small => 50,
            RequestSize::Medium => 250,
            RequestSize::Large => 500,
            RequestSize::Custom(n) => n,
        }
    }
}

impl From<RequestSize> for u16 {
    fn from(value: RequestSize) -> (r: u16)
        ensures
            r == value.requests(),
    {
        match value {
            RequestSize::Small => 50,
            RequestSize::Medium => 250,
            RequestSize::Large => 500,
            RequestSize::Custom(n) => n,
        }
    }
}

impl vstd::std_specs::convert::FromSpecImpl<RequestSize> for u16 {
    open spec fn obeys_from_spec() -> bool {
        true
    }

    open spec fn from_spec(value: RequestSize) -> u16 {
        value.requests()
    }
}

impl Default for RequestSize {
    fn default() -> (r: Self)
        ensures
            r == RequestSize::Medium,
    {
        RequestSize::Medium
    }
}

/// A request to fetch a feed.
#[derive(Debug)]
pub struct FetcherFeedRequest {
    /// What kind of feed is fetched.
    pub resource_kind: RedditFeedKind,
    /// Which reports are wanted.
    pub report_types: Vec<RMoodsReportType>,
    /// The data sources of the feed; only the first one is fetched.
    pub data_sources: Vec<DataSource>,
    /// How many page requests may be made.
    pub size: RequestSize,
    /// The order of the feed.
    pub sorting: FeedSorting,
}

} // verus!
