use vstd::prelude::*;
use crate::envelope::{ContainerKind, RawComment, RawContainer, RawPost, cast_message};
use crate::error::FetcherError;
use crate::feed_request::{DataSource, FetcherFeedRequest};
use crate::model::{
    FeedItems, RedditFeedData, children_of_kinds, comments_of, posts_of,
};
use crate::request::{UserPostsRequest, opt_view};

verus! {

/// The posts and comments of a user's profile.
#[derive(Debug)]
pub struct UserPosts {
    pub posts: Vec<RawPost>,
    pub comments: Vec<RawComment>,
}

/// The message of the parse error raised by a profile child that is neither
/// a post nor a comment.
pub open spec fn user_feed_message() -> Seq<char> {
    "Failed to parse post from Reddit container"@
}

impl RedditFeedData for UserPosts {
    type RequestType = UserPostsRequest;

    open spec fn items(&self) -> FeedItems {
        (self.posts@, self.comments@, Seq::empty())
    }

    open spec fn page(container: RawContainer) -> Result<FeedItems, Seq<char>> {
        match container {
            RawContainer::Listing(l) => if children_of_kinds(
                l.children@,
                ContainerKind::Post,
                ContainerKind::Comment,
            ) {
                Ok((posts_of(l.children@), comments_of(l.children@), Seq::empty()))
            } else {
                Err(user_feed_message())
            },
            _ => Err(cast_message(ContainerKind::Listing)),
        }
    }

    open spec fn accepts(source: DataSource) -> bool {
        true
    }

    open spec fn requests_page(
        request: FetcherFeedRequest,
        source: DataSource,
        after: Option<Seq<char>>,
        r: UserPostsRequest,
    ) -> bool {
        &&& r.username@ == source.name@
        &&& r.sorting == request.sorting
        &&& opt_view(r.after) == after
    }

    fn accepts_source(source: &DataSource) -> (r: bool) {
        true
    }

    fn from_reddit_container(container: RawContainer) -> (r: Result<Self, FetcherError>) {
        let ghost c0 = container;
        let listing = match container.into_listing() {
            Ok(l) => l,
            Err(e) => return Err(e),
        };
        let ghost cs = listing.children@;
        let mut posts: Vec<RawPost> = Vec::new();
        let mut comments: Vec<RawComment> = Vec::new();
        for child in iter: listing.children.into_iter()
            invariant
                iter.seq() == cs,
                c0 == container,
                c0 matches RawContainer::Listing(l) && l.children@ == cs,
                posts@ == posts_of(cs.take(iter.index() as int)),
                comments@ == comments_of(cs.take(iter.index() as int)),
                children_of_kinds(
                    cs.take(iter.index() as int),
                    ContainerKind::Post,
                    ContainerKind::Comment,
                ),
        {
            let ghost i = iter.index() as int;
            proof {
                assert(cs.take(i + 1).drop_last() =~= cs.take(i));
                assert(child == cs[i]);
            }
            match child {
                RawContainer::Post(p) => posts.push(*p),
                RawContainer::Comment(c) => comments.push(*c),
                _ => {
                    proof {
                        assert(cs[i].spec_kind() != ContainerKind::Post);
                        assert(cs[i].spec_kind() != ContainerKind::Comment);
                        assert(!children_of_kinds(cs, ContainerKind::Post, ContainerKind::Comment));
                    }
                    return Err(
                        FetcherError::RedditParseError(
                            String::from_str("Failed to parse post from Reddit container"),
                        ),
                    );
                },
            }
            proof {
                assert(children_of_kinds(
                    cs.take(i + 1),
                    ContainerKind::Post,
                    ContainerKind::Comment,
                ));
            }
        }
        proof {
            assert(cs.take(cs.len() as int) =~= cs);
        }
        Ok(UserPosts { posts, comments })
    }

    fn create_reddit_request(
        request: &FetcherFeedRequest,
        source: DataSource,
        after: Option<String>,
    ) -> (r: UserPostsRequest) {
        UserPostsRequest { username: source.name, sorting: request.sorting, after }
    }

    fn concat(self, other: Self) -> (r: Self) {
        let mut posts = self.posts;
        let mut other_posts = other.posts;
        posts.append(&mut other_posts);
        let mut comments = self.comments;
        let mut other_comments = other.comments;
        comments.append(&mut other_comments);
        UserPosts { posts, comments }
    }
}

} // verus!
