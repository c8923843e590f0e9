use vstd::prelude::*;
use crate::envelope::{ContainerKind, RawContainer, RawPost, cast_message};
use crate::error::FetcherError;
use crate::feed_request::{DataSource, FetcherFeedRequest};
use crate::model::{FeedItems, RedditFeedData, children_of_kinds, posts_of};
use crate::request::{SubredditPostsRequest, opt_view};

verus! {

/// The posts of a subreddit.
#[derive(Debug)]
pub struct Posts {
    pub list: Vec<RawPost>,
}

impl RedditFeedData for Posts {
    type RequestType = SubredditPostsRequest;

    open spec fn items(&self) -> FeedItems {
        (self.list@, Seq::empty(), Seq::empty())
    }

    open spec fn page(container: RawContainer) -> Result<FeedItems, Seq<char>> {
        match container {
            RawContainer::Listing(l) => if children_of_kinds(
                l.children@,
                ContainerKind::Post,
                ContainerKind::Post,
            ) {
                Ok((posts_of(l.children@), Seq::empty(), Seq::empty()))
            } else {
                Err(cast_message(ContainerKind::Post))
            },
            _ => Err(cast_message(ContainerKind::Listing)),
        }
    }

    open spec fn accepts(source: DataSource) -> bool {
        true
    }

    open spec fn requests_page(
        request: FetcherFeedRequest,
        source: DataSource,
        after: Option<Seq<char>>,
        r: SubredditPostsRequest,
    ) -> bool {
        &&& r.subreddit@ == source.name@
        &&& r.sorting == request.sorting
        &&& opt_view(r.after) == after
    }

    fn accepts_source(source: &DataSource) -> (r: bool) {
        true
    }

    fn from_reddit_container(container: RawContainer) -> (r: Result<Self, FetcherError>) {
        let ghost c0 = container;
        let listing = match container.into_listing() {
            Ok(l) => l,
            Err(e) => return Err(e),
        };
        let ghost cs = listing.children@;
        let mut list: Vec<RawPost> = Vec::new();
        for child in iter: listing.children.into_iter()
            invariant
                iter.seq() == cs,
                c0 == container,
                c0 matches RawContainer::Listing(l) && l.children@ == cs,
                list@ == posts_of(cs.take(iter.index() as int)),
                children_of_kinds(
                    cs.take(iter.index() as int),
                    ContainerKind::Post,
                    ContainerKind::Post,
                ),
        {
            let ghost i = iter.index() as int;
            proof {
                assert(cs.take(i + 1).drop_last() =~= cs.take(i));
                assert(child == cs[i]);
            }
            match child.into_post() {
                Ok(p) => list.push(p),
                Err(e) => {
                    proof {
                        assert(cs[i].spec_kind() != ContainerKind::Post);
                        assert(!children_of_kinds(cs, ContainerKind::Post, ContainerKind::Post));
                    }
                    return Err(e);
                },
            }
            proof {
                assert(children_of_kinds(
                    cs.take(i + 1),
                    ContainerKind::Post,
                    ContainerKind::Post,
                ));
            }
        }
        proof {
            assert(cs.take(cs.len() as int) =~= cs);
        }
        Ok(Posts { list })
    }

    fn create_reddit_request(
        request: &FetcherFeedRequest,
        source: DataSource,
        after: Option<String>,
    ) -> (r: SubredditPostsRequest) {
        SubredditPostsRequest { subreddit: source.name, sorting: request.sorting, after }
    }

    fn concat(self, other: Self) -> (r: Self) {
        let mut list = self.list;
        let mut rest = other.list;
        list.append(&mut rest);
        Posts { list }
    }
}

} // verus!
