use vstd::prelude::*;
use crate::envelope::MoreComments;
use crate::params::FeedSorting;

verus! {

/// The parts of an HTTP request: URL and query parameters, in order.
pub type RequestParts = (String, Vec<(&'static str, String)>);

/// Fetch the posts of a subreddit.
#[derive(Debug)]
pub struct SubredditPostsRequest {
    /// The subreddit name.
    pub subreddit: String,
    pub sorting: FeedSorting,
    pub after: Option<String>,
}

/// Fetch information about a subreddit.
#[derive(Debug)]
pub struct SubredditAboutRequest {
    pub subreddit: String,
}

/// Fetch posts and comments from a user's profile.
#[derive(Debug)]
pub struct UserPostsRequest {
    /// The user's username.
    pub username: String,
    pub sorting: FeedSorting,
    pub after: Option<String>,
}

/// Fetch information about a user.
#[derive(Debug)]
pub struct UserAboutRequest {
    /// The user's username.
    pub username: String,
}

/// Fetch the comments of a post.
#[derive(Debug)]
pub struct PostCommentsRequest {
    /// The subreddit name.
    pub subreddit: String,
    /// The post's id, e.g. 1eubxgg
    pub post_id: String,
    pub sorting: FeedSorting,
    pub after: Option<String>,
}

/// The query parameters as pairs of character sequences.
pub open spec fn query_view(q: Seq<(&'static str, String)>) -> Seq<(Seq<char>, Seq<char>)> {
    q.map_values(|p: (&'static str, String)| (p.0@, p.1@))
}

pub open spec fn opt_view(o: Option<String>) -> Option<Seq<char>> {
    match o {
        Some(s) => Some(s@),
        None => None,
    }
}

/// The query of one page of a feed: `sort` where the resource takes it, then
/// `t` where the sort mode has a time window, then `limit=100`, then `after`
/// once a cursor exists.
pub open spec fn page_query(with_sort: bool, sorting: FeedSorting, after: Option<Seq<char>>) -> Seq<
    (Seq<char>, Seq<char>),
> {
    (if with_sort {
        seq![("sort"@, sorting.name())]
    } else {
        Seq::empty()
    }) + (match sorting.window() {
        Some(t) => seq![("t"@, t.name())],
        None => Seq::empty(),
    }) + seq![("limit"@, "100"@)] + (match after {
        Some(a) => seq![("after"@, a)],
        None => Seq::empty(),
    })
}

pub trait RedditRequest {
    /// The URL the request is sent to.
    spec fn url(&self) -> Seq<char>;

    /// The query parameters of the request, in order.
    spec fn query(&self) -> Seq<(Seq<char>, Seq<char>)>;

    /// A short human-readable name of the requested resource.
    spec fn resource(&self) -> Seq<char>;

    fn to_request_parts(&self) -> (r: RequestParts)
        ensures
            r.0@ == self.url(),
            query_view(r.1@) == self.query(),
    ;

    fn resource_name(&self) -> (r: String)
        ensures
            r@ == self.resource(),
    ;
}

/// Appends the page parameters that follow `sort` to `query`.
fn push_page_params(
    query: &mut Vec<(&'static str, String)>,
    sorting: &FeedSorting,
    after: &Option<String>,
)
    ensures
        query_view(final(query)@) == query_view(old(query)@) + page_query(
            false,
            *sorting,
            opt_view(*after),
        ),
{
    let ghost start = query_view(query@);
    if let Some(time) = sorting.time() {
        query.push(("t", time.to_string()));
    }
    query.push(("limit", String::from_str("100")));
    if let Some(a) = after {
        query.push(("after", a.clone()));
    }
    assert(query_view(query@) =~= start + page_query(false, *sorting, opt_view(*after)));
}

fn page_params(with_sort: bool, sorting: &FeedSorting, after: &Option<String>) -> (r: Vec<
    (&'static str, String),
>)
    ensures
        query_view(r@) == page_query(with_sort, *sorting, opt_view(*after)),
{
    let mut query: Vec<(&'static str, String)> = Vec::new();
    if with_sort {
        query.push(("sort", sorting.to_string()));
    }
    assert(query_view(query@) =~= if with_sort {
        seq![("sort"@, sorting.name())]
    } else {
        Seq::empty()
    });
    push_page_params(&mut query, sorting, after);
    assert(query_view(query@) =~= page_query(with_sort, *sorting, opt_view(*after)));
    query
}

impl RedditRequest for SubredditPostsRequest {
    open spec fn url(&self) -> Seq<char> {
        "https://oauth.reddit.com/r/"@ + self.subreddit@ + "/"@ + self.sorting.name() + ".json"@
    }

    open spec fn query(&self) -> Seq<(Seq<char>, Seq<char>)> {
        page_query(false, self.sorting, opt_view(self.after))
    }

    open spec fn resource(&self) -> Seq<char> {
        "r/"@ + self.subreddit@
    }

    fn to_request_parts(&self) -> (r: RequestParts) {
        let url = String::from_str("https://oauth.reddit.com/r/").concat(
            self.subreddit.as_str(),
        ).concat("/").concat(self.sorting.to_string().as_str()).concat(".json");
        proof {
            assert(url@ =~= self.url());
        }
        (url, page_params(false, &self.sorting, &self.after))
    }

    fn resource_name(&self) -> (r: String) {
        String::from_str("r/").concat(self.subreddit.as_str())
    }
}

impl RedditRequest for SubredditAboutRequest {
    open spec fn url(&self) -> Seq<char> {
        "https://oauth.reddit.com/r/"@ + self.subreddit@ + "/about.json"@
    }

    open spec fn query(&self) -> Seq<(Seq<char>, Seq<char>)> {
        Seq::empty()
    }

    open spec fn resource(&self) -> Seq<char> {
        "r/"@ + self.subreddit@
    }

    fn to_request_parts(&self) -> (r: RequestParts) {
        let url = String::from_str("https://oauth.reddit.com/r/").concat(
            self.subreddit.as_str(),
        ).concat("/about.json");
        proof {
            assert(url@ =~= self.url());
        }
        let query: Vec<(&'static str, String)> = Vec::new();
        assert(query_view(query@) =~= Seq::empty());
        (url, query)
    }

    fn resource_name(&self) -> (r: String) {
        String::from_str("r/").concat(self.subreddit.as_str())
    }
}

impl RedditRequest for UserPostsRequest {
    open spec fn url(&self) -> Seq<char> {
        "https://oauth.reddit.com/user/"@ + self.username@ + ".json"@
    }

    open spec fn query(&self) -> Seq<(Seq<char>, Seq<char>)> {
        page_query(true, self.sorting, opt_view(self.after))
    }

    open spec fn resource(&self) -> Seq<char> {
        "u/"@ + self.username@
    }

    fn to_request_parts(&self) -> (r: RequestParts) {
        let url = String::from_str("https://oauth.reddit.com/user/").concat(
            self.username.as_str(),
        ).concat(".json");
        proof {
            assert(url@ =~= self.url());
        }
        (url, page_params(true, &self.sorting, &self.after))
    }

    fn resource_name(&self) -> (r: String) {
        String::from_str("u/").concat(self.username.as_str())
    }
}

impl RedditRequest for UserAboutRequest {
    open spec fn url(&self) -> Seq<char> {
        "https://oauth.reddit.com/user/"@ + self.username@ + "/about.json"@
    }

    open spec fn query(&self) -> Seq<(Seq<char>, Seq<char>)> {
        Seq::empty()
    }

    open spec fn resource(&self) -> Seq<char> {
        "u/"@ + self.username@
    }

    fn to_request_parts(&self) -> (r: RequestParts) {
        let url = String::from_str("https://oauth.reddit.com/user/").concat(
            self.username.as_str(),
        ).concat("/about.json");
        proof {
            assert(url@ =~= self.url());
        }
        let query: Vec<(&'static str, String)> = Vec::new();
        assert(query_view(query@) =~= Seq::empty());
        (url, query)
    }

    fn resource_name(&self) -> (r: String) {
        String::from_str("u/").concat(self.username.as_str())
    }
}

impl RedditRequest for PostCommentsRequest {
    open spec fn url(&self) -> Seq<char> {
        "https://oauth.reddit.com/r/"@ + self.subreddit@ + "/comments/"@ + self.post_id@ + ".json"@
    }

    open spec fn query(&self) -> Seq<(Seq<char>, Seq<char>)> {
        page_query(true, self.sorting, opt_view(self.after))
    }

    open spec fn resource(&self) -> Seq<char> {
        "r/"@ + self.subreddit@ + "/comments/"@ + self.post_id@
    }

    fn to_request_parts(&self) -> (r: RequestParts) {
        let url = String::from_str("https://oauth.reddit.com/r/").concat(
            self.subreddit.as_str(),
        ).concat("/comments/").concat(self.post_id.as_str()).concat(".json");
        proof {
            assert(url@ =~= self.url());
        }
        (url, page_params(true, &self.sorting, &self.after))
    }

    fn resource_name(&self) -> (r: String) {
        String::from_str("r/").concat(self.subreddit.as_str()).concat("/comments/").concat(
            self.post_id.as_str(),
        )
    }
}

/// The most ids one expansion request may carry.
pub const MORE_CHILDREN_CHUNK: usize = 100;

/// The ids joined with commas.
pub open spec fn comma_joined(ids: Seq<Seq<char>>) -> Seq<char>
    decreases ids.len(),
{
    if ids.len() == 0 {
        Seq::empty()
    } else if ids.len() == 1 {
        ids[0]
    } else {
        comma_joined(ids.drop_last()) + ","@ + ids.last()
    }
}

pub open spec fn id_views(ids: Seq<String>) -> Seq<Seq<char>> {
    ids.map_values(|s: String| s@)
}

/// The `i`-th group of at most 100 consecutive ids.
pub open spec fn id_chunk(ids: Seq<Seq<char>>, i: int) -> Seq<Seq<char>> {
    let end = if 100 * i + 100 <= ids.len() {
        100 * i + 100
    } else {
        ids.len() as int
    };
    ids.subrange(100 * i, end)
}

/// The query of the expansion request for one chunk of ids of a post.
pub open spec fn more_children_query(link_id: Seq<char>, chunk: Seq<Seq<char>>) -> Seq<
    (Seq<char>, Seq<char>),
> {
    seq![("link_id"@, link_id), ("children"@, comma_joined(chunk)), ("api_type"@, "json"@)]
}

fn join_ids(ids: &Vec<String>, start: usize, end: usize) -> (r: String)
    requires
        start <= end <= ids@.len(),
    ensures
        r@ == comma_joined(id_views(ids@).subrange(start as int, end as int)),
{
    let ghost views = id_views(ids@);
    let mut joined = String::new();
    let mut j: usize = start;
    while j < end
        invariant
            start <= j <= end <= ids@.len(),
            views == id_views(ids@),
            joined@ == comma_joined(views.subrange(start as int, j as int)),
        decreases end - j,
    {
        let ghost prev = views.subrange(start as int, j as int);
        if j > start {
            joined.append(",");
        }
        joined.append(ids[j].as_str());
        j = j + 1;
        proof {
            let cur = views.subrange(start as int, j as int);
            assert(cur.drop_last() =~= prev);
            if prev.len() == 0 {
                assert(joined@ =~= cur[0]);
            }
        }
    }
    joined
}

impl MoreComments {
    /// One request per chunk of at most 100 child ids, in order.
    pub fn into_request_parts(self) -> (r: Vec<RequestParts>)
        ensures
            r@.len() == (self.children@.len() + 99) / 100,
            forall|i: int|
                0 <= i < r@.len() ==> {
                    &&& (#[trigger] r@[i]).0@ == "https://oauth.reddit.com/api/morechildren"@
                    &&& query_view(r@[i].1@) == more_children_query(
                        self.parent_id@,
                        id_chunk(id_views(self.children@), i),
                    )
                },
    {
        let n = self.children.len();
        let ghost ids = id_views(self.children@);
        let mut out: Vec<RequestParts> = Vec::new();
        let mut start: usize = 0;
        while start < n
            invariant
                n == self.children@.len(),
                ids == id_views(self.children@),
                start <= n,
                start < n ==> start == 100 * out@.len(),
                start == n ==> out@.len() == (n + 99) / 100,
                forall|i: int|
                    0 <= i < out@.len() ==> {
                        &&& (#[trigger] out@[i]).0@ == "https://oauth.reddit.com/api/morechildren"@
                        &&& query_view(out@[i].1@) == more_children_query(
                            self.parent_id@,
                            id_chunk(ids, i),
                        )
                    },
            decreases n - start,
        {
            let end = if n - start <= MORE_CHILDREN_CHUNK {
                n
            } else {
                start + MORE_CHILDREN_CHUNK
            };
            let query = vec![
                ("link_id", self.parent_id.clone()),
                ("children", join_ids(&self.children, start, end)),
                ("api_type", String::from_str("json")),
            ];
            let ghost k = out@.len() as int;
            proof {
                assert(id_chunk(ids, k) =~= ids.subrange(start as int, end as int));
                assert(query_view(query@) =~= more_children_query(self.parent_id@, id_chunk(ids, k)));
            }
            out.push((String::from_str("https://oauth.reddit.com/api/morechildren"), query));
            start = end;
        }
        out
    }
}

} // verus!
