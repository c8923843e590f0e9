use rmoods_fetcher::envelope::{
    ContainerKind, Listing, MoreComments, RawComment, RawContainer, RawPost, RawSubredditAbout,
    RawUserAbout,
};
use rmoods_fetcher::error::FetcherError;

fn sample(kind: ContainerKind) -> RawContainer {
    match kind {
        ContainerKind::Listing => RawContainer::Listing(Box::new(Listing { children: vec![] })),
        ContainerKind::Post => RawContainer::Post(Box::new(RawPost {
            id: "p".to_string(),
            author: "a".to_string(),
            title: "t".to_string(),
            selftext: "s".to_string(),
            score: 3,
        })),
        ContainerKind::Comment => RawContainer::Comment(Box::new(RawComment {
            id: "c".to_string(),
            parent_id: "t3_p".to_string(),
            author: "a".to_string(),
            body: "b".to_string(),
            score: -1,
        })),
        ContainerKind::MoreComments => RawContainer::MoreComments(Box::new(MoreComments {
            parent_id: "t3_p".to_string(),
            children: vec!["x".to_string()],
        })),
        ContainerKind::SubredditAbout => RawContainer::SubredditAbout(Box::new(RawSubredditAbout {
            display_name: "r".to_string(),
            title: "t".to_string(),
            public_description: "d".to_string(),
            subscribers: 5,
        })),
        ContainerKind::UserAbout => RawContainer::UserAbout(Box::new(RawUserAbout {
            name: "u".to_string(),
            link_karma: 1,
            comment_karma: 2,
        })),
    }
}

const KINDS: [ContainerKind; 6] = [
    ContainerKind::Listing,
    ContainerKind::Post,
    ContainerKind::Comment,
    ContainerKind::MoreComments,
    ContainerKind::SubredditAbout,
    ContainerKind::UserAbout,
];

fn name(kind: ContainerKind) -> &'static str {
    match kind {
        ContainerKind::Listing => "Listing",
        ContainerKind::Post => "Post",
        ContainerKind::Comment => "Comment",
        ContainerKind::MoreComments => "MoreComments",
        ContainerKind::SubredditAbout => "SubredditAbout",
        ContainerKind::UserAbout => "UserAbout",
    }
}

/// Narrows `c` to `target`, reporting only whether it succeeded.
fn narrow(c: RawContainer, target: ContainerKind) -> Result<(), FetcherError> {
    match target {
        ContainerKind::Listing => c.into_listing().map(|_| ()),
        ContainerKind::Post => c.into_post().map(|_| ()),
        ContainerKind::Comment => c.into_comment().map(|_| ()),
        ContainerKind::MoreComments => c.into_more_comments().map(|_| ()),
        ContainerKind::SubredditAbout => c.into_subreddit_about().map(|_| ()),
        ContainerKind::UserAbout => c.into_user_about().map(|_| ()),
    }
}

#[test]
fn every_mismatched_narrowing_is_a_parse_error() {
    for source in KINDS {
        for target in KINDS {
            let c = sample(source);
            assert_eq!(c.kind(), source);
            let r = narrow(c, target);
            if source == target {
                assert!(r.is_ok());
            } else {
                assert_eq!(
                    r.unwrap_err(),
                    FetcherError::RedditParseError(format!(
                        "Failed to cast to RawContainer::{}",
                        name(target)
                    ))
                );
            }
        }
    }
}

#[test]
fn narrowing_keeps_the_payload() {
    let post = sample(ContainerKind::Post).into_post().unwrap();
    assert_eq!(post.id, "p");
    assert_eq!(post.score, 3);
    let stub = sample(ContainerKind::MoreComments).into_more_comments().unwrap();
    assert_eq!(stub.children, vec!["x".to_string()]);
    let comment = sample(ContainerKind::Comment).into_comment().unwrap();
    assert_eq!(comment.score, -1);
}
