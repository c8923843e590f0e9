use vstd::prelude::*;
use crate::envelope::{ContainerKind, MoreComments, RawComment, RawContainer, cast_message};
use crate::error::FetcherError;
use crate::feed_request::{DataSource, FetcherFeedRequest};
use crate::model::{
    FeedItems, RedditFeedData, children_of_kinds, comments_of, stubs_of,
};
use crate::request::{PostCommentsRequest, opt_view};

verus! {

/// The comments of a post, and the stubs of the comments that the responses
/// left out.
#[derive(Debug)]
pub struct PostComments {
    pub list: Vec<RawComment>,
    pub more: Vec<MoreComments>,
}

/// The message of the parse error raised by a child of a comment listing that
/// is neither a comment nor a stub.
pub open spec fn comment_feed_message() -> Seq<char> {
    "Failed to parse comment from Reddit container"@
}

impl RedditFeedData for PostComments {
    type RequestType = PostCommentsRequest;

    open spec fn items(&self) -> FeedItems {
        (Seq::empty(), self.list@, self.more@)
    }

    open spec fn page(container: RawContainer) -> Result<FeedItems, Seq<char>> {
        match container {
            RawContainer::Listing(l) => if children_of_kinds(
                l.children@,
                ContainerKind::Comment,
                ContainerKind::MoreComments,
            ) {
                Ok((Seq::empty(), comments_of(l.children@), stubs_of(l.children@)))
            } else {
                Err(comment_feed_message())
            },
            _ => Err(cast_message(ContainerKind::Listing)),
        }
    }

    open spec fn accepts(source: DataSource) -> bool {
        source.post_id is Some
    }

    open spec fn requests_page(
        request: FetcherFeedRequest,
        source: DataSource,
        after: Option<Seq<char>>,
        r: PostCommentsRequest,
    ) -> bool {
        &&& r.subreddit@ == source.name@
        &&& source.post_id matches Some(id) && r.post_id@ == id@
        &&& r.sorting == request.sorting
        &&& opt_view(r.after) == after
    }

    fn accepts_source(source: &DataSource) -> (r: bool) {
        source.post_id.is_some()
    }

    fn from_reddit_container(container: RawContainer) -> (r: Result<Self, FetcherError>) {
        let ghost c0 = container;
        let listing = match container.into_listing() {
            Ok(l) => l,
            Err(e) => return Err(e),
        };
        let ghost cs = listing.children@;
        let mut list: Vec<RawComment> = Vec::new();
        let mut more: Vec<MoreComments> = Vec::new();
        for child in iter: listing.children.into_iter()
            invariant
                iter.seq() == cs,
                c0 == container,
                c0 matches RawContainer::Listing(l) && l.children@ == cs,
                list@ == comments_of(cs.take(iter.index() as int)),
                more@ == stubs_of(cs.take(iter.index() as int)),
                children_of_kinds(
                    cs.take(iter.index() as int),
                    ContainerKind::Comment,
                    ContainerKind::MoreComments,
                ),
        {
            let ghost i = iter.index() as int;
            proof {
                assert(cs.take(i + 1).drop_last() =~= cs.take(i));
                assert(child == cs[i]);
            }
            match child {
                RawContainer::Comment(c) => list.push(*c),
                RawContainer::MoreComments(m) => more.push(*m),
                _ => {
                    proof {
                        assert(cs[i].spec_kind() != ContainerKind::Comment);
                        assert(cs[i].spec_kind() != ContainerKind::MoreComments);
                        assert(!children_of_kinds(cs, ContainerKind::Comment, ContainerKind::MoreComments));
                    }
                    return Err(
                        FetcherError::RedditParseError(
                            String::from_str("Failed to parse comment from Reddit container"),
                        ),
                    );
                },
            }
            proof {
                assert(children_of_kinds(
                    cs.take(i + 1),
                    ContainerKind::Comment,
                    ContainerKind::MoreComments,
                ));
            }
        }
        proof {
            assert(cs.take(cs.len() as int) =~= cs);
        }
        Ok(PostComments { list, more })
    }

    fn create_reddit_request(
        request: &FetcherFeedRequest,
        source: DataSource,
        after: Option<String>,
    ) -> (r: PostCommentsRequest) {
        PostCommentsRequest {
            subreddit: source.name,
            post_id: source.post_id.unwrap(),
            sorting: request.sorting,
            after,
        }
    }

    fn concat(self, other: Self) -> (r: Self) {
        let mut list = self.list;
        let mut other_list = other.list;
        list.append(&mut other_list);
        let mut more = self.more;
        let mut other_more = other.more;
        more.append(&mut other_more);
        PostComments { list, more }
    }
}

} // verus!
