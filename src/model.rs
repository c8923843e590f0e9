use vstd::prelude::*;
use crate::envelope::{ContainerKind, MoreComments, RawComment, RawContainer, RawPost, cast_message};
use crate::error::{FetcherError, is_parse_error};
use crate::feed_request::{DataSource, FetcherFeedRequest};
use crate::request::{RedditRequest, opt_view};

verus! {

/// What a page of a feed holds: its posts, its comments and its stubs of
/// comments left out, each in the order of the listing.
pub type FeedItems = (Seq<RawPost>, Seq<RawComment>, Seq<MoreComments>);

/// A freshly fetched page merged with what was accumulated before it: the new
/// page's items come first.
pub open spec fn merge_items(new_page: FeedItems, accumulated: FeedItems) -> FeedItems {
    (new_page.0 + accumulated.0, new_page.1 + accumulated.1, new_page.2 + accumulated.2)
}

pub open spec fn no_items() -> FeedItems {
    (Seq::empty(), Seq::empty(), Seq::empty())
}

/// Every child of a listing is of kind `a` or of kind `b`.
pub open spec fn children_of_kinds(cs: Seq<RawContainer>, a: ContainerKind, b: ContainerKind) -> bool {
    forall|i: int| 0 <= i < cs.len() ==> (#[trigger] cs[i].spec_kind() == a || cs[i].spec_kind() == b)
}

/// The posts among the children, in order.
pub open spec fn posts_of(cs: Seq<RawContainer>) -> Seq<RawPost>
    decreases cs.len(),
{
    if cs.len() == 0 {
        Seq::empty()
    } else {
        posts_of(cs.drop_last()) + match cs.last() {
            RawContainer::Post(p) => seq![*p],
            _ => Seq::empty(),
        }
    }
}

/// The comments among the children, in order.
pub open spec fn comments_of(cs: Seq<RawContainer>) -> Seq<RawComment>
    decreases cs.len(),
{
    if cs.len() == 0 {
        Seq::empty()
    } else {
        comments_of(cs.drop_last()) + match cs.last() {
            RawContainer::Comment(c) => seq![*c],
            _ => Seq::empty(),
        }
    }
}

/// The stubs of comments left out among the children, in order.
pub open spec fn stubs_of(cs: Seq<RawContainer>) -> Seq<MoreComments>
    decreases cs.len(),
{
    if cs.len() == 0 {
        Seq::empty()
    } else {
        stubs_of(cs.drop_last()) + match cs.last() {
            RawContainer::MoreComments(m) => seq![*m],
            _ => Seq::empty(),
        }
    }
}

/// Common interface of the data that is a feed: subreddit posts, post
/// comments, user posts.
pub trait RedditFeedData: Sized {
    /// The request that fetches one page of this data.
    type RequestType: RedditRequest;

    /// The items this value holds.
    spec fn items(&self) -> FeedItems;

    /// What one page's envelope projects to, or the message of the parse
    /// error it raises.
    spec fn page(container: RawContainer) -> Result<FeedItems, Seq<char>>;

    /// The data sources this feed can be fetched from.
    spec fn accepts(source: DataSource) -> bool;

    /// `r` fetches the page after cursor `after` of `source`.
    spec fn requests_page(
        request: FetcherFeedRequest,
        source: DataSource,
        after: Option<Seq<char>>,
        r: Self::RequestType,
    ) -> bool;

    /// Whether this feed can be fetched from `source`.
    fn accepts_source(source: &DataSource) -> (r: bool)
        ensures
            r == Self::accepts(*source),
    ;

    /// Converts one page's envelope into the typed partial result.
    fn from_reddit_container(container: RawContainer) -> (r: Result<Self, FetcherError>)
        ensures
            match Self::page(container) {
                Ok(items) => r is Ok && r->Ok_0.items() == items,
                Err(m) => is_parse_error(r, m),
            },
    ;

    /// Builds the request of the page after `after`.
    fn create_reddit_request(
        request: &FetcherFeedRequest,
        source: DataSource,
        after: Option<String>,
    ) -> (r: Self::RequestType)
        requires
            Self::accepts(source),
        ensures
            Self::requests_page(*request, source, opt_view(after), r),
    ;

    /// Merges a freshly fetched page (`self`) with what was accumulated
    /// before it (`other`).
    fn concat(self, other: Self) -> (r: Self)
        ensures
            r.items() == merge_items(self.items(), other.items()),
    ;
}

/// Data fetched from the remote API as a single object, not as a feed.
pub trait RedditAboutData: Sized {
    /// The request that fetches this data.
    type RequestType: RedditRequest;

    /// The kind of envelope this data is read from.
    spec fn kind() -> ContainerKind;

    /// `r` holds what `container` holds.
    spec fn holds(container: RawContainer, r: Self) -> bool;

    /// Converts the envelope into the typed result.
    fn from_reddit_container(container: RawContainer) -> (r: Result<Self, FetcherError>)
        ensures
            container.spec_kind() == Self::kind() ==> r is Ok && Self::holds(container, r->Ok_0),
            container.spec_kind() != Self::kind() ==> is_parse_error(r, cast_message(Self::kind())),
    ;
}

} // verus!
