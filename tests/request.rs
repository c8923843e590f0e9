use rmoods_fetcher::envelope::MoreComments;
use rmoods_fetcher::params::{FeedSorting, FeedSortingTime};
use rmoods_fetcher::request::{
    PostCommentsRequest, RedditRequest, SubredditAboutRequest, SubredditPostsRequest,
    UserAboutRequest, UserPostsRequest,
};

#[test]
fn test_create_url_subreddit_posts() {
    let req = SubredditPostsRequest {
        subreddit: "Polska".to_string(),
        sorting: FeedSorting::New,
        after: None,
    };
    let (url, query) = req.to_request_parts();
    assert_eq!(url, "https://oauth.reddit.com/r/Polska/new.json");
    assert_eq!(query, vec![("limit", "100".to_string())]);
}

#[test]
fn test_create_url_subreddit_info() {
    let req = SubredditAboutRequest {
        subreddit: "Polska".to_string(),
    };
    let (url, query) = req.to_request_parts();
    assert_eq!(url, "https://oauth.reddit.com/r/Polska/about.json");
    assert_eq!(query, vec![]);
}

#[test]
fn test_create_url_user_posts() {
    let req = UserPostsRequest {
        username: "spez".to_string(),
        sorting: FeedSorting::Top(FeedSortingTime::All),
        after: None,
    };
    let (url, query) = req.to_request_parts();
    assert_eq!(url, "https://oauth.reddit.com/user/spez.json");
    assert_eq!(
        query,
        vec![
            ("sort", "top".to_string()),
            ("t", "all".to_string()),
            ("limit", "100".to_string()),
        ]
    );
}

#[test]
fn test_create_url_user_info() {
    let req = UserAboutRequest {
        username: "spez".to_string(),
    };
    let (url, query) = req.to_request_parts();
    assert_eq!(url, "https://oauth.reddit.com/user/spez/about.json");
    assert_eq!(query, vec![]);
}

#[test]
fn test_create_url_post_comments() {
    let req = PostCommentsRequest {
        subreddit: "Polska".to_string(),
        post_id: "abc123".to_string(),
        sorting: FeedSorting::Controversial(FeedSortingTime::Day),
        after: None,
    };
    let (url, query) = req.to_request_parts();
    assert_eq!(
        url,
        "https://oauth.reddit.com/r/Polska/comments/abc123.json"
    );
    assert_eq!(
        query,
        vec![
            ("sort", "controversial".to_string()),
            ("t", "day".to_string()),
            ("limit", "100".to_string())
        ]
    );
}

#[test]
fn test_create_default_params() {
    let req = PostCommentsRequest {
        subreddit: "Polska".to_string(),
        post_id: "abc123".to_string(),
        sorting: FeedSorting::default(),
        after: None,
    };
    let (url, query) = req.to_request_parts();
    assert_eq!(
        url,
        "https://oauth.reddit.com/r/Polska/comments/abc123.json"
    );
    assert_eq!(
        query,
        vec![("sort", "hot".to_string()), ("limit", "100".to_string())]
    );
}

#[test]
fn subreddit_posts_with_window_and_cursor() {
    let req = SubredditPostsRequest {
        subreddit: "rust".to_string(),
        sorting: FeedSorting::Top(FeedSortingTime::Week),
        after: Some("t3_abc".to_string()),
    };
    let (url, query) = req.to_request_parts();
    assert_eq!(url, "https://oauth.reddit.com/r/rust/top.json");
    assert_eq!(
        query,
        vec![
            ("t", "week".to_string()),
            ("limit", "100".to_string()),
            ("after", "t3_abc".to_string()),
        ]
    );
}

#[test]
fn user_posts_with_cursor_keeps_after_last() {
    let req = UserPostsRequest {
        username: "spez".to_string(),
        sorting: FeedSorting::New,
        after: Some("t1_x".to_string()),
    };
    let (_, query) = req.to_request_parts();
    assert_eq!(
        query,
        vec![
            ("sort", "new".to_string()),
            ("limit", "100".to_string()),
            ("after", "t1_x".to_string()),
        ]
    );
}

#[test]
fn request_building_is_deterministic() {
    let make = || PostCommentsRequest {
        subreddit: "Polska".to_string(),
        post_id: "abc123".to_string(),
        sorting: FeedSorting::Controversial(FeedSortingTime::Month),
        after: Some("c".to_string()),
    };
    assert_eq!(make().to_request_parts(), make().to_request_parts());
    assert_eq!(
        make().to_request_parts().1,
        vec![
            ("sort", "controversial".to_string()),
            ("t", "month".to_string()),
            ("limit", "100".to_string()),
            ("after", "c".to_string()),
        ]
    );
}

#[test]
fn every_time_window_has_its_query_value() {
    let windows = [
        (FeedSortingTime::Hour, "hour"),
        (FeedSortingTime::Day, "day"),
        (FeedSortingTime::Week, "week"),
        (FeedSortingTime::Month, "month"),
        (FeedSortingTime::Year, "year"),
        (FeedSortingTime::All, "all"),
    ];
    for (w, name) in windows {
        let req = UserPostsRequest {
            username: "u".to_string(),
            sorting: FeedSorting::Top(w),
            after: None,
        };
        let (_, query) = req.to_request_parts();
        assert_eq!(query[1], ("t", name.to_string()));
    }
}

#[test]
fn resource_names() {
    let posts = SubredditPostsRequest {
        subreddit: "Polska".to_string(),
        sorting: FeedSorting::Hot,
        after: None,
    };
    assert_eq!(posts.resource_name(), "r/Polska");
    let user = UserAboutRequest {
        username: "spez".to_string(),
    };
    assert_eq!(user.resource_name(), "u/spez");
    let comments = PostCommentsRequest {
        subreddit: "Polska".to_string(),
        post_id: "abc123".to_string(),
        sorting: FeedSorting::Hot,
        after: None,
    };
    assert_eq!(comments.resource_name(), "r/Polska/comments/abc123");
}

#[test]
fn more_comments_split_into_chunks_of_hundred() {
    let children: Vec<String> = (0..250).map(|i| format!("c{}", i)).collect();
    let stub = MoreComments {
        parent_id: "t3_post".to_string(),
        children: children.clone(),
    };
    let parts = stub.into_request_parts();
    assert_eq!(parts.len(), 3);
    for (k, (url, query)) in parts.iter().enumerate() {
        assert_eq!(url, "https://oauth.reddit.com/api/morechildren");
        let end = usize::min(100 * k + 100, 250);
        assert_eq!(
            query,
            &vec![
                ("link_id", "t3_post".to_string()),
                ("children", children[100 * k..end].join(",")),
                ("api_type", "json".to_string()),
            ]
        );
    }
}

#[test]
fn more_comments_small_and_empty() {
    let stub = MoreComments {
        parent_id: "t3_p".to_string(),
        children: vec!["a".to_string(), "b".to_string(), "c".to_string()],
    };
    let parts = stub.into_request_parts();
    assert_eq!(parts.len(), 1);
    assert_eq!(parts[0].1[1], ("children", "a,b,c".to_string()));

    let exact = MoreComments {
        parent_id: "t3_p".to_string(),
        children: (0..100).map(|i| i.to_string()).collect(),
    };
    assert_eq!(exact.into_request_parts().len(), 1);

    let empty = MoreComments {
        parent_id: "t3_p".to_string(),
        children: vec![],
    };
    assert!(empty.into_request_parts().is_empty());
}
