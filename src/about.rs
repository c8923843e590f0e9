use vstd::prelude::*;
use crate::envelope::{ContainerKind, RawContainer, RawSubredditAbout, RawUserAbout};
use crate::error::FetcherError;
use crate::model::RedditAboutData;
use crate::request::{SubredditAboutRequest, UserAboutRequest};

verus! {

/// Information about a subreddit.
#[derive(Debug)]
pub struct SubredditAbout {
    pub info: RawSubredditAbout,
}

/// Information about a user.
#[derive(Debug)]
pub struct UserAbout {
    pub info: RawUserAbout,
}

impl RedditAboutData for SubredditAbout {
    type RequestType = SubredditAboutRequest;

    open spec fn kind() -> ContainerKind {
        ContainerKind::SubredditAbout
    }

    open spec fn holds(container: RawContainer, r: SubredditAbout) -> bool {
        container matches RawContainer::SubredditAbout(a) && r.info == *a
    }

    fn from_reddit_container(container: RawContainer) -> (r: Result<SubredditAbout, FetcherError>) {
        match container.into_subreddit_about() {
            Ok(info) => Ok(SubredditAbout { info }),
            Err(e) => Err(e),
        }
    }
}

impl RedditAboutData for UserAbout {
    type RequestType = UserAboutRequest;

    open spec fn kind() -> ContainerKind {
        ContainerKind::UserAbout
    }

    open spec fn holds(container: RawContainer, r: UserAbout) -> bool {
        container matches RawContainer::UserAbout(a) && r.info == *a
    }

    fn from_reddit_container(container: RawContainer) -> (r: Result<UserAbout, FetcherError>) {
        match container.into_user_about() {
            Ok(info) => Ok(UserAbout { info }),
            Err(e) => Err(e),
        }
    }
}

} // verus!
