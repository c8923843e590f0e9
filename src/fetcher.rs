use vstd::prelude::*;
use crate::envelope::{MoreComments, RawComment, RawContainer, RawPost};
use crate::error::{FetcherError, is_parse_error};
use crate::feed_request::{DataSource, FetcherFeedRequest};
use crate::model::{FeedItems, RedditFeedData, merge_items, no_items};
use crate::request::opt_view;

verus! {

/// What the pages of a feed merge to, fetched in the order given: each page
/// is merged before everything fetched earlier.
pub open spec fn merged_pages(pages: Seq<FeedItems>) -> FeedItems
    decreases pages.len(),
{
    if pages.len() == 0 {
        no_items()
    } else if pages.len() == 1 {
        pages[0]
    } else {
        merge_items(pages.last(), merged_pages(pages.drop_last()))
    }
}

fn copy_source(s: &DataSource) -> (r: DataSource)
    ensures
        r == *s,
{
    let post_id = match &s.post_id {
        Some(p) => Some(p.clone()),
        None => None,
    };
    DataSource { name: s.name.clone(), post_id, share: s.share }
}

fn copy_cursor(after: &Option<String>) -> (r: Option<String>)
    ensures
        r == *after,
{
    match after {
        Some(a) => Some(a.clone()),
        None => None,
    }
}

/// The decisions of one feed fetch. The pages are fetched one after another:
/// the first without a cursor, each next one with the cursor returned with
/// the page before it, until the budget of requests is spent or no cursor
/// comes back.
pub struct FeedFetch<T: RedditFeedData> {
    request: FetcherFeedRequest,
    source: DataSource,
    requests_to_make: u16,
    requests_made: u16,
    after: Option<String>,
    parsed: Option<T>,
    pages: Ghost<Seq<FeedItems>>,
}

impl<T: RedditFeedData> FeedFetch<T> {
    /// The feed request being served.
    pub closed spec fn feed_request(&self) -> FetcherFeedRequest {
        self.request
    }

    /// The data source fetched: the first of the request.
    pub closed spec fn source(&self) -> DataSource {
        self.source
    }

    /// The most page requests this fetch may make.
    pub closed spec fn budget(&self) -> u16 {
        self.requests_to_make
    }

    /// The number of page requests made so far.
    pub closed spec fn made(&self) -> u16 {
        self.requests_made
    }

    /// The cursor returned with the last page, if any.
    pub closed spec fn cursor(&self) -> Option<Seq<char>> {
        opt_view(self.after)
    }

    /// The items of the pages fetched so far, in the order they came.
    pub closed spec fn pages(&self) -> Seq<FeedItems> {
        self.pages@
    }

    /// Another page is to be requested: none was yet, or the budget is not
    /// spent and the last page came with a cursor.
    pub open spec fn can_request(&self) -> bool {
        self.made() == 0 || (self.made() < self.budget() && self.cursor() is Some)
    }

    pub closed spec fn wf(&self) -> bool {
        &&& self.request.data_sources@.len() > 0
        &&& self.source == self.request.data_sources@[0]
        &&& T::accepts(self.source)
        &&& self.requests_to_make == self.request.size.requests()
        &&& self.requests_made as nat == self.pages@.len()
        &&& (self.requests_made == 0 <==> self.parsed is None)
        &&& (self.requests_made == 0 ==> self.after is None)
        &&& (self.requests_made <= self.requests_to_make || self.requests_made == 1)
        &&& (self.parsed matches Some(p) ==> p.items() == merged_pages(self.pages@))
    }

    /// Starts a fetch of the first data source of `request`.
    pub fn new(request: FetcherFeedRequest) -> (r: Self)
        requires
            request.data_sources@.len() > 0,
            T::accepts(request.data_sources@[0]),
        ensures
            r.wf(),
            r.feed_request() == request,
            r.source() == request.data_sources@[0],
            r.budget() == request.size.requests(),
            r.made() == 0,
            r.cursor() is None,
            r.pages() == Seq::<FeedItems>::empty(),
    {
        let requests_to_make = u16::from(request.size);
        let source = copy_source(&request.data_sources[0]);
        FeedFetch {
            request,
            source,
            requests_to_make,
            requests_made: 0,
            after: None,
            parsed: None,
            pages: Ghost(Seq::empty()),
        }
    }

    pub fn requests_made(&self) -> (r: u16)
        requires
            self.wf(),
        ensures
            r == self.made(),
    {
        self.requests_made
    }

    pub fn requests_to_make(&self) -> (r: u16)
        requires
            self.wf(),
        ensures
            r == self.budget(),
    {
        self.requests_to_make
    }

    /// The request of the next page, or `None` once the fetch is over.
    pub fn next_request(&self) -> (r: Option<T::RequestType>)
        requires
            self.wf(),
        ensures
            r is Some <==> self.can_request(),
            r matches Some(q) ==> T::requests_page(
                self.feed_request(),
                self.source(),
                self.cursor(),
                q,
            ),
    {
        if self.requests_made == 0 || (self.requests_made < self.requests_to_make
            && self.after.is_some()) {
            Some(
                T::create_reddit_request(
                    &self.request,
                    copy_source(&self.source),
                    copy_cursor(&self.after),
                ),
            )
        } else {
            None
        }
    }

    /// Takes the envelope of the page just fetched and the cursor that came
    /// with it. A page that does not project leaves the fetch as it was.
    pub fn on_page(&mut self, container: RawContainer, after: Option<String>) -> (r: Result<
        (),
        FetcherError,
    >)
        requires
            old(self).wf(),
            old(self).can_request(),
        ensures
            final(self).wf(),
            final(self).feed_request() == old(self).feed_request(),
            final(self).source() == old(self).source(),
            final(self).budget() == old(self).budget(),
            match T::page(container) {
                Ok(items) => {
                    &&& r is Ok
                    &&& final(self).pages() == old(self).pages().push(items)
                    &&& final(self).made() == old(self).made() + 1
                    &&& final(self).cursor() == opt_view(after)
                },
                Err(m) => is_parse_error(r, m) && *final(self) == *old(self),
            },
    {
        let page = match T::from_reddit_container(container) {
            Ok(p) => p,
            Err(e) => return Err(e),
        };
        let ghost items = page.items();
        let ghost old_pages = self.pages@;
        let merged = match self.parsed.take() {
            None => page,
            Some(acc) => page.concat(acc),
        };
        self.parsed = Some(merged);
        self.after = after;
        self.requests_made = self.requests_made + 1;
        self.pages = Ghost(old_pages.push(items));
        proof {
            assert(self.pages@.drop_last() =~= old_pages);
        }
        Ok(())
    }

    /// The merged result and the number of page requests made.
    pub fn finish(self) -> (r: (T, u16))
        requires
            self.wf(),
            self.made() > 0,
        ensures
            r.0.items() == merged_pages(self.pages()),
            r.1 == self.made(),
    {
        (self.parsed.unwrap(), self.requests_made)
    }
}

/// A fetch never makes more page requests than its budget, once the budget
/// allows at least one.
pub proof fn lemma_requests_within_budget<T: RedditFeedData>(f: &FeedFetch<T>)
    requires
        f.wf(),
        f.budget() >= 1,
    ensures
        f.made() <= f.budget(),
{
}

/// Once a page has been fetched, pagination stops exactly when no cursor came
/// with the last page or the budget is spent.
pub proof fn lemma_stops_iff_cursor_absent_or_budget_spent<T: RedditFeedData>(f: &FeedFetch<T>)
    requires
        f.wf(),
        f.made() > 0,
    ensures
        !f.can_request() <==> (f.cursor() is None || f.made() >= f.budget()),
{
}

/// The pages concatenated from the last fetched to the first.
pub open spec fn newest_first<A>(pages: Seq<Seq<A>>) -> Seq<A> {
    pages.reverse().flatten()
}

proof fn lemma_newest_first_push<A>(pages: Seq<Seq<A>>, page: Seq<A>)
    ensures
        newest_first(pages.push(page)) == page + newest_first(pages),
{
    let r = pages.push(page).reverse();
    assert(r.first() == page);
    assert(r.drop_first() =~= pages.reverse());
}

/// Merging pages as they come puts the items of each page before those of
/// every page fetched earlier: the merged posts, comments and stubs are the
/// pages' own, newest page first.
pub proof fn lemma_merge_newest_page_first(pages: Seq<FeedItems>)
    ensures
        merged_pages(pages).0 == newest_first(pages.map_values(|p: FeedItems| p.0)),
        merged_pages(pages).1 == newest_first(pages.map_values(|p: FeedItems| p.1)),
        merged_pages(pages).2 == newest_first(pages.map_values(|p: FeedItems| p.2)),
    decreases pages.len(),
{
    let ps0 = pages.map_values(|p: FeedItems| p.0);
    let ps1 = pages.map_values(|p: FeedItems| p.1);
    let ps2 = pages.map_values(|p: FeedItems| p.2);
    if pages.len() == 0 {
        assert(ps0.reverse() =~= Seq::empty());
        assert(ps1.reverse() =~= Seq::empty());
        assert(ps2.reverse() =~= Seq::empty());
    } else {
        let prev = pages.drop_last();
        let last = pages.last();
        lemma_merge_newest_page_first(prev);
        assert(ps0 =~= prev.map_values(|p: FeedItems| p.0).push(last.0));
        assert(ps1 =~= prev.map_values(|p: FeedItems| p.1).push(last.1));
        assert(ps2 =~= prev.map_values(|p: FeedItems| p.2).push(last.2));
        lemma_newest_first_push(prev.map_values(|p: FeedItems| p.0), last.0);
        lemma_newest_first_push(prev.map_values(|p: FeedItems| p.1), last.1);
        lemma_newest_first_push(prev.map_values(|p: FeedItems| p.2), last.2);
        if pages.len() == 1 {
            assert(prev.map_values(|p: FeedItems| p.0).reverse() =~= Seq::empty());
            assert(prev.map_values(|p: FeedItems| p.1).reverse() =~= Seq::empty());
            assert(prev.map_values(|p: FeedItems| p.2).reverse() =~= Seq::empty());
            assert(last.0 + Seq::<RawPost>::empty() =~= last.0);
            assert(last.1 + Seq::<RawComment>::empty() =~= last.1);
            assert(last.2 + Seq::<MoreComments>::empty() =~= last.2);
        }
    }
}

/// The total of a sequence of request counts.
pub open spec fn total(counts: Seq<u16>) -> int
    decreases counts.len(),
{
    if counts.len() == 0 {
        0
    } else {
        total(counts.drop_last()) + counts.last()
    }
}

/// The decisions of one expansion of comment stubs under a shared budget of
/// requests. The stubs are resolved in order, each with the budget left,
/// until the stubs run out or the budget reaches zero.
pub struct MoreCommentsFetch {
    stubs: Vec<MoreComments>,
    next: usize,
    requests_left: u16,
    comments: Vec<RawComment>,
    initial: Ghost<u16>,
    consumed: Ghost<Seq<u16>>,
}

impl MoreCommentsFetch {
    /// The stubs to resolve.
    pub closed spec fn stubs(&self) -> Seq<MoreComments> {
        self.stubs@
    }

    /// The budget the expansion started with.
    pub closed spec fn initial(&self) -> u16 {
        self.initial@
    }

    /// The budget left.
    pub closed spec fn left(&self) -> u16 {
        self.requests_left
    }

    /// The requests consumed by each stub resolved so far, in order.
    pub closed spec fn consumed(&self) -> Seq<u16> {
        self.consumed@
    }

    /// The comments obtained so far, in order.
    pub closed spec fn comments(&self) -> Seq<RawComment> {
        self.comments@
    }

    /// The number of stubs resolved so far.
    pub open spec fn resolved(&self) -> int {
        self.consumed().len() as int
    }

    /// Another stub is to be resolved.
    pub open spec fn can_continue(&self) -> bool {
        self.left() > 0 && self.resolved() < self.stubs().len()
    }

    pub closed spec fn wf(&self) -> bool {
        &&& self.next as nat == self.consumed@.len()
        &&& self.next <= self.stubs@.len()
        &&& total(self.consumed@) + self.requests_left == self.initial@
    }

    pub fn new(stubs: Vec<MoreComments>, requests_left: u16) -> (r: Self)
        ensures
            r.wf(),
            r.stubs() == stubs@,
            r.initial() == requests_left,
            r.left() == requests_left,
            r.consumed() == Seq::<u16>::empty(),
            r.comments() == Seq::<RawComment>::empty(),
    {
        MoreCommentsFetch {
            stubs,
            next: 0,
            requests_left,
            comments: Vec::new(),
            initial: Ghost(requests_left),
            consumed: Ghost(Seq::empty()),
        }
    }

    pub fn requests_left(&self) -> (r: u16)
        requires
            self.wf(),
        ensures
            r == self.left(),
    {
        self.requests_left
    }

    /// The stub to resolve next, or `None` once the expansion is over.
    pub fn next_stub(&self) -> (r: Option<&MoreComments>)
        requires
            self.wf(),
        ensures
            r is Some <==> self.can_continue(),
            r matches Some(m) ==> *m == self.stubs()[self.resolved()],
    {
        if self.requests_left == 0 || self.next >= self.stubs.len() {
            None
        } else {
            Some(&self.stubs[self.next])
        }
    }

    /// Takes the comments the next stub resolved to and the number of
    /// requests resolving it consumed.
    pub fn on_stub(&mut self, new_comments: Vec<RawComment>, requests_made: u16)
        requires
            old(self).wf(),
            old(self).can_continue(),
            requests_made <= old(self).left(),
        ensures
            final(self).wf(),
            final(self).stubs() == old(self).stubs(),
            final(self).initial() == old(self).initial(),
            final(self).left() == old(self).left() - requests_made,
            final(self).consumed() == old(self).consumed().push(requests_made),
            final(self).comments() == old(self).comments() + new_comments@,
    {
        let mut new_comments = new_comments;
        let ghost old_consumed = self.consumed@;
        let n = self.stubs.len();
        assert(self.next < n);
        self.requests_left = self.requests_left - requests_made;
        self.comments.append(&mut new_comments);
        self.next = self.next + 1;
        self.consumed = Ghost(old_consumed.push(requests_made));
        proof {
            assert(self.consumed@.drop_last() =~= old_consumed);
        }
    }

    /// The comments obtained, in the order of the stubs.
    pub fn finish(self) -> (r: Vec<RawComment>)
        ensures
            r@ == self.comments(),
    {
        self.comments
    }
}

/// The requests consumed by an expansion never exceed its initial budget,
/// and once the budget reaches zero no further stub is resolved.
pub proof fn lemma_expansion_within_budget(f: &MoreCommentsFetch)
    requires
        f.wf(),
    ensures
        total(f.consumed()) <= f.initial(),
        f.left() == 0 ==> !f.can_continue(),
{
}

} // verus!
