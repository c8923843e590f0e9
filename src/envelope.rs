use vstd::prelude::*;
use crate::error::{FetcherError, is_parse_error};

verus! {

#[derive(Debug, Clone)]
pub struct RawPost {
    pub id: String,
    pub author: String,
    pub title: String,
    pub selftext: String,
    pub score: i64,
}

#[derive(Debug, Clone)]
pub struct RawComment {
    pub id: String,
    pub parent_id: String,
    pub author: String,
    pub body: String,
    pub score: i64,
}

#[derive(Debug, Clone)]
pub struct RawSubredditAbout {
    pub display_name: String,
    pub title: String,
    pub public_description: String,
    pub subscribers: u64,
}

#[derive(Debug, Clone)]
pub struct RawUserAbout {
    pub name: String,
    pub link_karma: i64,
    pub comment_karma: i64,
}

/// A continuation pointer for a comment subtree that did not fit in one
/// response: the post it belongs to and the ids of the comments left out.
#[derive(Debug, Clone)]
pub struct MoreComments {
    pub parent_id: String,
    pub children: Vec<String>,
}

#[derive(Debug)]
pub struct Listing {
    pub children: Vec<RawContainer>,
}

/// One decoded response of the remote API, before it is projected into a
/// typed result.
#[derive(Debug)]
pub enum RawContainer {
    Listing(Box<Listing>),
    Post(Box<RawPost>),
    Comment(Box<RawComment>),
    MoreComments(Box<MoreComments>),
    SubredditAbout(Box<RawSubredditAbout>),
    UserAbout(Box<RawUserAbout>),
}

/// The variants of `RawContainer`, as targets of a narrowing.
#[derive(Debug, Clone, Copy, PartialEq, Eq, Structural)]
pub enum ContainerKind {
    Listing,
    Post,
    Comment,
    MoreComments,
    SubredditAbout,
    UserAbout,
}

/// The message of the parse error raised when a narrowing to `kind` fails.
pub open spec fn cast_message(kind: ContainerKind) -> Seq<char> {
    match kind {
        ContainerKind::Listing => "Failed to cast to RawContainer::Listing"@,
        ContainerKind::Post => "Failed to cast to RawContainer::Post"@,
        ContainerKind::Comment => "Failed to cast to RawContainer::Comment"@,
        ContainerKind::MoreComments => "Failed to cast to RawContainer::MoreComments"@,
        ContainerKind::SubredditAbout => "Failed to cast to RawContainer::SubredditAbout"@,
        ContainerKind::UserAbout => "Failed to cast to RawContainer::UserAbout"@,
    }
}

pub fn cast_error(kind: ContainerKind) -> (r: FetcherError)
    ensures
        r matches FetcherError::RedditParseError(m) && m@ == cast_message(kind),
{
    let m = match kind {
        ContainerKind::Listing => "Failed to cast to RawContainer::Listing",
        ContainerKind::Post => "Failed to cast to RawContainer::Post",
        ContainerKind::Comment => "Failed to cast to RawContainer::Comment",
        ContainerKind::MoreComments => "Failed to cast to RawContainer::MoreComments",
        ContainerKind::SubredditAbout => "Failed to cast to RawContainer::SubredditAbout",
        ContainerKind::UserAbout => "Failed to cast to RawContainer::UserAbout",
    };
    FetcherError::RedditParseError(String::from_str(m))
}

impl RawContainer {
    pub open spec fn spec_kind(self) -> ContainerKind {
        match self {
            RawContainer::Listing(_) => ContainerKind::Listing,
            RawContainer::Post(_) => ContainerKind::Post,
            RawContainer::Comment(_) => ContainerKind::Comment,
            RawContainer::MoreComments(_) => ContainerKind::MoreComments,
            RawContainer::SubredditAbout(_) => ContainerKind::SubredditAbout,
            RawContainer::UserAbout(_) => ContainerKind::UserAbout,
        }
    }

    pub fn kind(&self) -> (r: ContainerKind)
        ensures
            r == self.spec_kind(),
    {
        match self {
            RawContainer::Listing(_) => ContainerKind::Listing,
            RawContainer::Post(_) => ContainerKind::Post,
            RawContainer::Comment(_) => ContainerKind::Comment,
            RawContainer::MoreComments(_) => ContainerKind::MoreComments,
            RawContainer::SubredditAbout(_) => ContainerKind::SubredditAbout,
            RawContainer::UserAbout(_) => ContainerKind::UserAbout,
        }
    }

    pub fn into_listing(self) -> (r: Result<Listing, FetcherError>)
        ensures
            match self {
                RawContainer::Listing(l) => r == Ok::<Listing, FetcherError>(*l),
                _ => is_parse_error(r, cast_message(ContainerKind::Listing)),
            },
    {
        match self {
            RawContainer::Listing(l) => Ok(*l),
            _ => Err(cast_error(ContainerKind::Listing)),
        }
    }

    pub fn into_post(self) -> (r: Result<RawPost, FetcherError>)
        ensures
            match self {
                RawContainer::Post(p) => r == Ok::<RawPost, FetcherError>(*p),
                _ => is_parse_error(r, cast_message(ContainerKind::Post)),
            },
    {
        match self {
            RawContainer::Post(p) => Ok(*p),
            _ => Err(cast_error(ContainerKind::Post)),
        }
    }

    pub fn into_comment(self) -> (r: Result<RawComment, FetcherError>)
        ensures
            match self {
                RawContainer::Comment(c) => r == Ok::<RawComment, FetcherError>(*c),
                _ => is_parse_error(r, cast_message(ContainerKind::Comment)),
            },
    {
        match self {
            RawContainer::Comment(c) => Ok(*c),
            _ => Err(cast_error(ContainerKind::Comment)),
        }
    }

    pub fn into_more_comments(self) -> (r: Result<MoreComments, FetcherError>)
        ensures
            match self {
                RawContainer::MoreComments(m) => r == Ok::<MoreComments, FetcherError>(*m),
                _ => is_parse_error(r, cast_message(ContainerKind::MoreComments)),
            },
    {
        match self {
            RawContainer::MoreComments(m) => Ok(*m),
            _ => Err(cast_error(ContainerKind::MoreComments)),
        }
    }

    pub fn into_subreddit_about(self) -> (r: Result<RawSubredditAbout, FetcherError>)
        ensures
            match self {
                RawContainer::SubredditAbout(a) => r == Ok::<RawSubredditAbout, FetcherError>(*a),
                _ => is_parse_error(r, cast_message(ContainerKind::SubredditAbout)),
            },
    {
        match self {
            RawContainer::SubredditAbout(a) => Ok(*a),
            _ => Err(cast_error(ContainerKind::SubredditAbout)),
        }
    }

    pub fn into_user_about(self) -> (r: Result<RawUserAbout, FetcherError>)
        ensures
            match self {
                RawContainer::UserAbout(a) => r == Ok::<RawUserAbout, FetcherError>(*a),
                _ => is_parse_error(r, cast_message(ContainerKind::UserAbout)),
            },
    {
        match self {
            RawContainer::UserAbout(a) => Ok(*a),
            _ => Err(cast_error(ContainerKind::UserAbout)),
        }
    }
}

} // verus!
