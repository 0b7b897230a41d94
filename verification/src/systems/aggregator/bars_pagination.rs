//! Explicit cursor traversal: calls hand out pagers, and a pager decides,
//! page by page, the next request and when the traversal ends.
use vstd::prelude::*;
use crate::sdk_core::error::SdkError;
use crate::sdk_core::pagination::{
    PaginationAdvance, PaginationState, PaginationStateView, advance_step, opt_view, pager_step,
    run_ends, run_state, lemma_run_ends_at, law_whole_traversal_counts,
    require_explicit_close_end, frozen_close_end, DEFAULT_TRAVERSE_MAX_PAGES,
};
use crate::sdk_core::time::TimeInput;
use crate::sdk_core::text::opt_string_view;
use crate::systems::aggregator::client::Aggregator;
use crate::systems::aggregator::types::{RangeGrpcRequest, RangeRequest, SearchGrpcRequest, SearchRequest, TimeMachineGrpcRequest, TimeMachineRequest};

verus! {

/// A `RangeRequest` ready to be sent once or traversed.
#[derive(Debug)]
pub struct RangeBarsCall<'a> {
    client: &'a Aggregator,
    request: RangeRequest,
}

/// Page-by-page traversal of a `RangeRequest`.
#[derive(Debug)]
pub struct RangeBarsPager<'a> {
    client: &'a Aggregator,
    request: RangeRequest,
    state: PaginationState,
    finished: bool,
}

impl<'a> RangeBarsCall<'a> {
    pub closed spec fn spec_request(&self) -> RangeRequest {
        self.request
    }

    pub closed spec fn spec_client(&self) -> &'a Aggregator {
        self.client
    }

    pub fn new(client: &'a Aggregator, request: RangeRequest) -> (r: Self)
        ensures
            r.spec_request() == request,
            r.spec_client() == client,
    {
        RangeBarsCall { client, request }
    }

    /// The client the request goes to.
    pub fn client(&self) -> (r: &'a Aggregator)
        ensures
            r == self.spec_client(),
    {
        self.client
    }

    /// The request as it will be sent.
    pub fn request(&self) -> (r: &RangeRequest)
        ensures
            *r == self.spec_request(),
    {
        &self.request
    }

    /// A pager over the request's pages.
    pub fn pager(self) -> (r: Result<RangeBarsPager<'a>, SdkError>)
        ensures
            r is Ok,
            r matches Ok(p) ==> p.spec_request() == self.spec_request() && !p.spec_finished()
                && p.spec_state() == (PaginationStateView {
                pages_fetched: 0,
                max_pages: DEFAULT_TRAVERSE_MAX_PAGES as nat,
                last_cursor: None,
            }) && p.spec_client() == self.spec_client(),
    {
        Ok(RangeBarsPager::new(self.client, self.request))
    }
}

/// A range pager as values: its page state, whether it has finished, and
/// the request it sends next.
pub struct RangeBarsPagerView {
    pub state: PaginationStateView,
    pub finished: bool,
    pub request: RangeRequest,
}

/// How a range pager moves on a page (its close end, next cursor and done
/// flag): once finished, not at all; otherwise its state advances, it
/// finishes when the page ends the traversal, and when the page hands out a
/// cursor the request moves on as `range_request_after` says.
pub open spec fn range_pager_moves(
    v: RangeBarsPagerView,
    page: (i64, Option<Seq<char>>, bool),
    v2: RangeBarsPagerView,
) -> bool {
    if v.finished {
        v2 == v
    } else {
        &&& (v2.state, v2.finished) == pager_step(v.state, false, (page.1, page.2))
        &&& (advance_step(v.state, page.1, page.2).1 matches Ok(Some(c)) ==> range_request_after(
            v.request,
            page.0,
            c,
            v2.request,
        ))
    }
}

/// The next cursors and done flags of pages.
pub open spec fn page_outcomes(pages: Seq<(i64, Option<Seq<char>>, bool)>) -> Seq<(Option<Seq<char>>, bool)> {
    Seq::new(pages.len(), |i: int| (pages[i].1, pages[i].2))
}

impl<'a> RangeBarsPager<'a> {
    pub open spec fn spec_view(&self) -> RangeBarsPagerView {
        RangeBarsPagerView { state: self.spec_state(), finished: self.spec_finished(), request: self.spec_request() }
    }

    pub closed spec fn spec_request(&self) -> RangeRequest {
        self.request
    }

    pub closed spec fn spec_finished(&self) -> bool {
        self.finished
    }

    pub closed spec fn spec_state(&self) -> PaginationStateView {
        self.state@
    }

    pub closed spec fn spec_client(&self) -> &'a Aggregator {
        self.client
    }

    fn new(client: &'a Aggregator, request: RangeRequest) -> (r: Self)
        ensures
            r.spec_request() == request,
            !r.spec_finished(),
            r.spec_state() == (PaginationStateView {
                pages_fetched: 0,
                max_pages: DEFAULT_TRAVERSE_MAX_PAGES as nat,
                last_cursor: None,
            }),
            r.spec_client() == client,
    {
        RangeBarsPager { client, request, state: PaginationState::new(), finished: false }
    }

    pub fn pages_fetched(&self) -> (r: usize)
        ensures
            r == self.spec_state().pages_fetched,
    {
        self.state.pages_fetched()
    }

    /// The client the pages come from.
    pub fn client(&self) -> (r: &'a Aggregator)
        ensures
            r == self.spec_client(),
    {
        self.client
    }

    /// The request for the next page, or `None` once the traversal has ended.
    pub fn pending_request(&self) -> (r: Option<&RangeRequest>)
        ensures
            self.spec_finished() ==> r is None,
            !self.spec_finished() ==> (r matches Some(q) && *q == self.spec_request()),
    {
        if self.finished {
            None
        } else {
            Some(&self.request)
        }
    }

    /// Takes in the page just fetched: its close end, next cursor and done
    /// flag. An omitted close end is frozen to the page's. The
    /// traversal goes on with the next cursor, ends when the page is done or
    /// has no cursor, and is refused when the budget is spent or the cursor
    /// repeats. Once the traversal has ended, a page changes nothing.
    pub fn record_page(&mut self, close_end_ms: i64, next_cursor: Option<&str>, done: bool) -> (r:
        Result<(), SdkError>)
        ensures
            !old(self).spec_finished() ==> (final(self).spec_client() == old(self).spec_client()),
            !old(self).spec_finished() ==> (final(self).spec_state() == advance_step(old(self).spec_state(), opt_view(next_cursor), done).0),
            !old(self).spec_finished() ==> (final(self).spec_request().close_end == frozen_close_end(
                old(self).spec_request().close_end,
                true,
                close_end_ms,
            )),
            !old(self).spec_finished() ==> (match advance_step(old(self).spec_state(), opt_view(next_cursor), done).1 {
                Ok(Some(c)) => r is Ok && !final(self).spec_finished() && opt_string_view(
                    final(self).spec_request().cursor,
                ) == Some(c) && final(self).spec_request() == (RangeRequest {
                    cursor: final(self).spec_request().cursor,
                    close_end: final(self).spec_request().close_end,
                    ..old(self).spec_request()
                }),
                Ok(None) => r is Ok && final(self).spec_finished() && final(self).spec_request() == (RangeRequest {
                    close_end: final(self).spec_request().close_end,
                    ..old(self).spec_request()
                }),
                Err(_) => r matches Err(SdkError::ContractDrift { .. }) && !final(self).spec_finished()
                    && final(self).spec_request() == (RangeRequest {
                    close_end: final(self).spec_request().close_end,
                    ..old(self).spec_request()
                }),
            }),
            old(self).spec_finished() ==> (r is Ok && *final(self) == *old(self)),
            (final(self).spec_state(), final(self).spec_finished()) == pager_step(
                old(self).spec_state(),
                old(self).spec_finished(),
                (opt_view(next_cursor), done),
            ),
            !old(self).spec_finished() ==> (advance_step(old(self).spec_state(), opt_view(next_cursor), done).1 matches Ok(Some(c))
                ==> range_request_after(old(self).spec_request(), close_end_ms, c, final(self).spec_request())),
            range_pager_moves(old(self).spec_view(), (close_end_ms, opt_view(next_cursor), done), final(self).spec_view()),
    {
        if self.finished {
            return Ok(());
        }
        if self.request.close_end.is_none() {
            self.request.close_end = Some(TimeInput::Ms(close_end_ms));
        }
        self.apply_advance(next_cursor, done)
    }

    fn apply_advance(&mut self, next_cursor: Option<&str>, done: bool) -> (r: Result<(), SdkError>)
        requires
            !old(self).spec_finished(),
        ensures
            final(self).spec_client() == old(self).spec_client(),
            final(self).spec_state() == advance_step(old(self).spec_state(), opt_view(next_cursor), done).0,
            match advance_step(old(self).spec_state(), opt_view(next_cursor), done).1 {
                Ok(Some(c)) => r is Ok && !final(self).spec_finished() && opt_string_view(
                    final(self).spec_request().cursor,
                ) == Some(c) && final(self).spec_request() == (RangeRequest {
                    cursor: final(self).spec_request().cursor,
                    ..old(self).spec_request()
                }),
                Ok(None) => r is Ok && final(self).spec_finished() && final(self).spec_request()
                    == old(self).spec_request(),
                Err(_) => r matches Err(SdkError::ContractDrift { .. }) && !final(self).spec_finished()
                    && final(self).spec_request() == old(self).spec_request(),
            },
    {
        match self.state.advance(next_cursor, done) {
            Ok(PaginationAdvance::Continue { cursor }) => {
                self.request.cursor = Some(cursor);
                Ok(())
            },
            Ok(PaginationAdvance::Finished) => {
                self.finished = true;
                Ok(())
            },
            Err(e) => Err(e),
        }
    }
}

/// A `RangeGrpcRequest` ready to be sent once or traversed.
#[derive(Debug)]
pub struct RangeBarsGrpcCall<'a> {
    client: &'a Aggregator,
    request: RangeGrpcRequest,
}

/// Page-by-page traversal of a `RangeGrpcRequest`.
#[derive(Debug)]
pub struct RangeBarsGrpcPager<'a> {
    client: &'a Aggregator,
    request: RangeGrpcRequest,
    state: PaginationState,
    finished: bool,
}

impl<'a> RangeBarsGrpcCall<'a> {
    pub closed spec fn spec_request(&self) -> RangeGrpcRequest {
        self.request
    }

    pub closed spec fn spec_client(&self) -> &'a Aggregator {
        self.client
    }

    pub fn new(client: &'a Aggregator, request: RangeGrpcRequest) -> (r: Self)
        ensures
            r.spec_request() == request,
            r.spec_client() == client,
    {
        RangeBarsGrpcCall { client, request }
    }

    /// The client the request goes to.
    pub fn client(&self) -> (r: &'a Aggregator)
        ensures
            r == self.spec_client(),
    {
        self.client
    }

    /// The request as it will be sent.
    pub fn request(&self) -> (r: &RangeGrpcRequest)
        ensures
            *r == self.spec_request(),
    {
        &self.request
    }

    /// A pager over the request's pages.
    pub fn pager(self) -> (r: Result<RangeBarsGrpcPager<'a>, SdkError>)
        ensures
            r is Ok,
            r matches Ok(p) ==> p.spec_request() == self.spec_request() && !p.spec_finished()
                && p.spec_state() == (PaginationStateView {
                pages_fetched: 0,
                max_pages: DEFAULT_TRAVERSE_MAX_PAGES as nat,
                last_cursor: None,
            }) && p.spec_client() == self.spec_client(),
    {
        Ok(RangeBarsGrpcPager::new(self.client, self.request))
    }
}

impl<'a> RangeBarsGrpcPager<'a> {
    pub closed spec fn spec_request(&self) -> RangeGrpcRequest {
        self.request
    }

    pub closed spec fn spec_finished(&self) -> bool {
        self.finished
    }

    pub closed spec fn spec_state(&self) -> PaginationStateView {
        self.state@
    }

    pub closed spec fn spec_client(&self) -> &'a Aggregator {
        self.client
    }

    fn new(client: &'a Aggregator, request: RangeGrpcRequest) -> (r: Self)
        ensures
            r.spec_request() == request,
            !r.spec_finished(),
            r.spec_state() == (PaginationStateView {
                pages_fetched: 0,
                max_pages: DEFAULT_TRAVERSE_MAX_PAGES as nat,
                last_cursor: None,
            }),
            r.spec_client() == client,
    {
        RangeBarsGrpcPager { client, request, state: PaginationState::new(), finished: false }
    }

    pub fn pages_fetched(&self) -> (r: usize)
        ensures
            r == self.spec_state().pages_fetched,
    {
        self.state.pages_fetched()
    }

    /// The client the pages come from.
    pub fn client(&self) -> (r: &'a Aggregator)
        ensures
            r == self.spec_client(),
    {
        self.client
    }

    /// The request for the next page, or `None` once the traversal has ended.
    pub fn pending_request(&self) -> (r: Option<&RangeGrpcRequest>)
        ensures
            self.spec_finished() ==> r is None,
            !self.spec_finished() ==> (r matches Some(q) && *q == self.spec_request()),
    {
        if self.finished {
            None
        } else {
            Some(&self.request)
        }
    }

    /// Takes in the page just fetched: its close end, next cursor and done
    /// flag. An omitted close end is frozen to the page's. The
    /// traversal goes on with the next cursor, ends when the page is done or
    /// has no cursor, and is refused when the budget is spent or the cursor
    /// repeats. Once the traversal has ended, a page changes nothing.
    pub fn record_page(&mut self, close_end_ms: i64, next_cursor: Option<&str>, done: bool) -> (r:
        Result<(), SdkError>)
        ensures
            !old(self).spec_finished() ==> (final(self).spec_client() == old(self).spec_client()),
            !old(self).spec_finished() ==> (final(self).spec_state() == advance_step(old(self).spec_state(), opt_view(next_cursor), done).0),
            !old(self).spec_finished() ==> (final(self).spec_request().close_end == frozen_close_end(
                old(self).spec_request().close_end,
                true,
                close_end_ms,
            )),
            !old(self).spec_finished() ==> (match advance_step(old(self).spec_state(), opt_view(next_cursor), done).1 {
                Ok(Some(c)) => r is Ok && !final(self).spec_finished() && opt_string_view(
                    final(self).spec_request().cursor,
                ) == Some(c) && final(self).spec_request() == (RangeGrpcRequest {
                    cursor: final(self).spec_request().cursor,
                    close_end: final(self).spec_request().close_end,
                    ..old(self).spec_request()
                }),
                Ok(None) => r is Ok && final(self).spec_finished() && final(self).spec_request() == (RangeGrpcRequest {
                    close_end: final(self).spec_request().close_end,
                    ..old(self).spec_request()
                }),
                Err(_) => r matches Err(SdkError::ContractDrift { .. }) && !final(self).spec_finished()
                    && final(self).spec_request() == (RangeGrpcRequest {
                    close_end: final(self).spec_request().close_end,
                    ..old(self).spec_request()
                }),
            }),
            old(self).spec_finished() ==> (r is Ok && *final(self) == *old(self)),
            (final(self).spec_state(), final(self).spec_finished()) == pager_step(
                old(self).spec_state(),
                old(self).spec_finished(),
                (opt_view(next_cursor), done),
            ),
            !old(self).spec_finished() ==> (advance_step(old(self).spec_state(), opt_view(next_cursor), done).1 matches Ok(Some(c))
                ==> range_grpc_request_after(old(self).spec_request(), close_end_ms, c, final(self).spec_request())),
    {
        if self.finished {
            return Ok(());
        }
        if self.request.close_end.is_none() {
            self.request.close_end = Some(TimeInput::Ms(close_end_ms));
        }
        self.apply_advance(next_cursor, done)
    }

    fn apply_advance(&mut self, next_cursor: Option<&str>, done: bool) -> (r: Result<(), SdkError>)
        requires
            !old(self).spec_finished(),
        ensures
            final(self).spec_client() == old(self).spec_client(),
            final(self).spec_state() == advance_step(old(self).spec_state(), opt_view(next_cursor), done).0,
            match advance_step(old(self).spec_state(), opt_view(next_cursor), done).1 {
                Ok(Some(c)) => r is Ok && !final(self).spec_finished() && opt_string_view(
                    final(self).spec_request().cursor,
                ) == Some(c) && final(self).spec_request() == (RangeGrpcRequest {
                    cursor: final(self).spec_request().cursor,
                    ..old(self).spec_request()
                }),
                Ok(None) => r is Ok && final(self).spec_finished() && final(self).spec_request()
                    == old(self).spec_request(),
                Err(_) => r matches Err(SdkError::ContractDrift { .. }) && !final(self).spec_finished()
                    && final(self).spec_request() == old(self).spec_request(),
            },
    {
        match self.state.advance(next_cursor, done) {
            Ok(PaginationAdvance::Continue { cursor }) => {
                self.request.cursor = Some(cursor);
                Ok(())
            },
            Ok(PaginationAdvance::Finished) => {
                self.finished = true;
                Ok(())
            },
            Err(e) => Err(e),
        }
    }
}

/// A `SearchRequest` ready to be sent once or traversed.
#[derive(Debug)]
pub struct SearchBarsCall<'a> {
    client: &'a Aggregator,
    request: SearchRequest,
}

/// Page-by-page traversal of a `SearchRequest`.
#[derive(Debug)]
pub struct SearchBarsPager<'a> {
    client: &'a Aggregator,
    request: SearchRequest,
    state: PaginationState,
    finished: bool,
}

impl<'a> SearchBarsCall<'a> {
    pub closed spec fn spec_request(&self) -> SearchRequest {
        self.request
    }

    pub closed spec fn spec_client(&self) -> &'a Aggregator {
        self.client
    }

    pub fn new(client: &'a Aggregator, request: SearchRequest) -> (r: Self)
        ensures
            r.spec_request() == request,
            r.spec_client() == client,
    {
        SearchBarsCall { client, request }
    }

    /// The client the request goes to.
    pub fn client(&self) -> (r: &'a Aggregator)
        ensures
            r == self.spec_client(),
    {
        self.client
    }

    /// The request as it will be sent.
    pub fn request(&self) -> (r: &SearchRequest)
        ensures
            *r == self.spec_request(),
    {
        &self.request
    }

    /// A pager over the request's pages.
    pub fn pager(self) -> (r: Result<SearchBarsPager<'a>, SdkError>)
        ensures
            self.spec_request().close_end is Some <==> r is Ok,
            r is Err ==> (r matches Err(SdkError::UnsupportedOrUnprovedUsage { message })
                && message@ == "search"@ + " traversal requires explicit close_end"@),
            r matches Ok(p) ==> p.spec_request() == self.spec_request() && !p.spec_finished()
                && p.spec_state() == (PaginationStateView {
                pages_fetched: 0,
                max_pages: DEFAULT_TRAVERSE_MAX_PAGES as nat,
                last_cursor: None,
            }) && p.spec_client() == self.spec_client(),
    {
        require_explicit_close_end(self.request.close_end.as_ref(), "search")?;
        Ok(SearchBarsPager::new(self.client, self.request))
    }
}

impl<'a> SearchBarsPager<'a> {
    pub closed spec fn spec_request(&self) -> SearchRequest {
        self.request
    }

    pub closed spec fn spec_finished(&self) -> bool {
        self.finished
    }

    pub closed spec fn spec_state(&self) -> PaginationStateView {
        self.state@
    }

    pub closed spec fn spec_client(&self) -> &'a Aggregator {
        self.client
    }

    fn new(client: &'a Aggregator, request: SearchRequest) -> (r: Self)
        ensures
            r.spec_request() == request,
            !r.spec_finished(),
            r.spec_state() == (PaginationStateView {
                pages_fetched: 0,
                max_pages: DEFAULT_TRAVERSE_MAX_PAGES as nat,
                last_cursor: None,
            }),
            r.spec_client() == client,
    {
        SearchBarsPager { client, request, state: PaginationState::new(), finished: false }
    }

    pub fn pages_fetched(&self) -> (r: usize)
        ensures
            r == self.spec_state().pages_fetched,
    {
        self.state.pages_fetched()
    }

    /// The client the pages come from.
    pub fn client(&self) -> (r: &'a Aggregator)
        ensures
            r == self.spec_client(),
    {
        self.client
    }

    /// The request for the next page, or `None` once the traversal has ended.
    pub fn pending_request(&self) -> (r: Option<&SearchRequest>)
        ensures
            self.spec_finished() ==> r is None,
            !self.spec_finished() ==> (r matches Some(q) && *q == self.spec_request()),
    {
        if self.finished {
            None
        } else {
            Some(&self.request)
        }
    }

    /// Takes in the page just fetched: its close end, next cursor and done
    /// flag. The traversal goes on with the next cursor, ends when the page is done or
    /// has no cursor, and is refused when the budget is spent or the cursor
    /// repeats. Once the traversal has ended, a page changes nothing.
    pub fn record_page(&mut self, close_end_ms: i64, next_cursor: Option<&str>, done: bool) -> (r:
        Result<(), SdkError>)
        ensures
            !old(self).spec_finished() ==> (final(self).spec_client() == old(self).spec_client()),
            !old(self).spec_finished() ==> (final(self).spec_state() == advance_step(old(self).spec_state(), opt_view(next_cursor), done).0),
            !old(self).spec_finished() ==> (final(self).spec_request().close_end == frozen_close_end(
                old(self).spec_request().close_end,
                false,
                close_end_ms,
            )),
            !old(self).spec_finished() ==> (match advance_step(old(self).spec_state(), opt_view(next_cursor), done).1 {
                Ok(Some(c)) => r is Ok && !final(self).spec_finished() && opt_string_view(
                    final(self).spec_request().cursor,
                ) == Some(c) && final(self).spec_request() == (SearchRequest {
                    cursor: final(self).spec_request().cursor,
                    close_end: final(self).spec_request().close_end,
                    ..old(self).spec_request()
                }),
                Ok(None) => r is Ok && final(self).spec_finished() && final(self).spec_request() == (SearchRequest {
                    close_end: final(self).spec_request().close_end,
                    ..old(self).spec_request()
                }),
                Err(_) => r matches Err(SdkError::ContractDrift { .. }) && !final(self).spec_finished()
                    && final(self).spec_request() == (SearchRequest {
                    close_end: final(self).spec_request().close_end,
                    ..old(self).spec_request()
                }),
            }),
            old(self).spec_finished() ==> (r is Ok && *final(self) == *old(self)),
            (final(self).spec_state(), final(self).spec_finished()) == pager_step(
                old(self).spec_state(),
                old(self).spec_finished(),
                (opt_view(next_cursor), done),
            ),
            !old(self).spec_finished() ==> (advance_step(old(self).spec_state(), opt_view(next_cursor), done).1 matches Ok(Some(c))
                ==> search_request_after(old(self).spec_request(), close_end_ms, c, final(self).spec_request())),
    {
        if self.finished {
            return Ok(());
        }
        self.apply_advance(next_cursor, done)
    }

    fn apply_advance(&mut self, next_cursor: Option<&str>, done: bool) -> (r: Result<(), SdkError>)
        requires
            !old(self).spec_finished(),
        ensures
            final(self).spec_client() == old(self).spec_client(),
            final(self).spec_state() == advance_step(old(self).spec_state(), opt_view(next_cursor), done).0,
            match advance_step(old(self).spec_state(), opt_view(next_cursor), done).1 {
                Ok(Some(c)) => r is Ok && !final(self).spec_finished() && opt_string_view(
                    final(self).spec_request().cursor,
                ) == Some(c) && final(self).spec_request() == (SearchRequest {
                    cursor: final(self).spec_request().cursor,
                    ..old(self).spec_request()
                }),
                Ok(None) => r is Ok && final(self).spec_finished() && final(self).spec_request()
                    == old(self).spec_request(),
                Err(_) => r matches Err(SdkError::ContractDrift { .. }) && !final(self).spec_finished()
                    && final(self).spec_request() == old(self).spec_request(),
            },
    {
        match self.state.advance(next_cursor, done) {
            Ok(PaginationAdvance::Continue { cursor }) => {
                self.request.cursor = Some(cursor);
                Ok(())
            },
            Ok(PaginationAdvance::Finished) => {
                self.finished = true;
                Ok(())
            },
            Err(e) => Err(e),
        }
    }
}

/// A `SearchGrpcRequest` ready to be sent once or traversed.
#[derive(Debug)]
pub struct SearchBarsGrpcCall<'a> {
    client: &'a Aggregator,
    request: SearchGrpcRequest,
}

/// Page-by-page traversal of a `SearchGrpcRequest`.
#[derive(Debug)]
pub struct SearchBarsGrpcPager<'a> {
    client: &'a Aggregator,
    request: SearchGrpcRequest,
    state: PaginationState,
    finished: bool,
}

impl<'a> SearchBarsGrpcCall<'a> {
    pub closed spec fn spec_request(&self) -> SearchGrpcRequest {
        self.request
    }

    pub closed spec fn spec_client(&self) -> &'a Aggregator {
        self.client
    }

    pub fn new(client: &'a Aggregator, request: SearchGrpcRequest) -> (r: Self)
        ensures
            r.spec_request() == request,
            r.spec_client() == client,
    {
        SearchBarsGrpcCall { client, request }
    }

    /// The client the request goes to.
    pub fn client(&self) -> (r: &'a Aggregator)
        ensures
            r == self.spec_client(),
    {
        self.client
    }

    /// The request as it will be sent.
    pub fn request(&self) -> (r: &SearchGrpcRequest)
        ensures
            *r == self.spec_request(),
    {
        &self.request
    }

    /// A pager over the request's pages.
    pub fn pager(self) -> (r: Result<SearchBarsGrpcPager<'a>, SdkError>)
        ensures
            self.spec_request().close_end is Some <==> r is Ok,
            r is Err ==> (r matches Err(SdkError::UnsupportedOrUnprovedUsage { message })
                && message@ == "search"@ + " traversal requires explicit close_end"@),
            r matches Ok(p) ==> p.spec_request() == self.spec_request() && !p.spec_finished()
                && p.spec_state() == (PaginationStateView {
                pages_fetched: 0,
                max_pages: DEFAULT_TRAVERSE_MAX_PAGES as nat,
                last_cursor: None,
            }) && p.spec_client() == self.spec_client(),
    {
        require_explicit_close_end(self.request.close_end.as_ref(), "search")?;
        Ok(SearchBarsGrpcPager::new(self.client, self.request))
    }
}

impl<'a> SearchBarsGrpcPager<'a> {
    pub closed spec fn spec_request(&self) -> SearchGrpcRequest {
        self.request
    }

    pub closed spec fn spec_finished(&self) -> bool {
        self.finished
    }

    pub closed spec fn spec_state(&self) -> PaginationStateView {
        self.state@
    }

    pub closed spec fn spec_client(&self) -> &'a Aggregator {
        self.client
    }

    fn new(client: &'a Aggregator, request: SearchGrpcRequest) -> (r: Self)
        ensures
            r.spec_request() == request,
            !r.spec_finished(),
            r.spec_state() == (PaginationStateView {
                pages_fetched: 0,
                max_pages: DEFAULT_TRAVERSE_MAX_PAGES as nat,
                last_cursor: None,
            }),
            r.spec_client() == client,
    {
        SearchBarsGrpcPager { client, request, state: PaginationState::new(), finished: false }
    }

    pub fn pages_fetched(&self) -> (r: usize)
        ensures
            r == self.spec_state().pages_fetched,
    {
        self.state.pages_fetched()
    }

    /// The client the pages come from.
    pub fn client(&self) -> (r: &'a Aggregator)
        ensures
            r == self.spec_client(),
    {
        self.client
    }

    /// The request for the next page, or `None` once the traversal has ended.
    pub fn pending_request(&self) -> (r: Option<&SearchGrpcRequest>)
        ensures
            self.spec_finished() ==> r is None,
            !self.spec_finished() ==> (r matches Some(q) && *q == self.spec_request()),
    {
        if self.finished {
            None
        } else {
            Some(&self.request)
        }
    }

    /// Takes in the page just fetched: its close end, next cursor and done
    /// flag. The traversal goes on with the next cursor, ends when the page is done or
    /// has no cursor, and is refused when the budget is spent or the cursor
    /// repeats. Once the traversal has ended, a page changes nothing.
    pub fn record_page(&mut self, close_end_ms: i64, next_cursor: Option<&str>, done: bool) -> (r:
        Result<(), SdkError>)
        ensures
            !old(self).spec_finished() ==> (final(self).spec_client() == old(self).spec_client()),
            !old(self).spec_finished() ==> (final(self).spec_state() == advance_step(old(self).spec_state(), opt_view(next_cursor), done).0),
            !old(self).spec_finished() ==> (final(self).spec_request().close_end == frozen_close_end(
                old(self).spec_request().close_end,
                false,
                close_end_ms,
            )),
            !old(self).spec_finished() ==> (match advance_step(old(self).spec_state(), opt_view(next_cursor), done).1 {
                Ok(Some(c)) => r is Ok && !final(self).spec_finished() && opt_string_view(
                    final(self).spec_request().cursor,
                ) == Some(c) && final(self).spec_request() == (SearchGrpcRequest {
                    cursor: final(self).spec_request().cursor,
                    close_end: final(self).spec_request().close_end,
                    ..old(self).spec_request()
                }),
                Ok(None) => r is Ok && final(self).spec_finished() && final(self).spec_request() == (SearchGrpcRequest {
                    close_end: final(self).spec_request().close_end,
                    ..old(self).spec_request()
                }),
                Err(_) => r matches Err(SdkError::ContractDrift { .. }) && !final(self).spec_finished()
                    && final(self).spec_request() == (SearchGrpcRequest {
                    close_end: final(self).spec_request().close_end,
                    ..old(self).spec_request()
                }),
            }),
            old(self).spec_finished() ==> (r is Ok && *final(self) == *old(self)),
            (final(self).spec_state(), final(self).spec_finished()) == pager_step(
                old(self).spec_state(),
                old(self).spec_finished(),
                (opt_view(next_cursor), done),
            ),
            !old(self).spec_finished() ==> (advance_step(old(self).spec_state(), opt_view(next_cursor), done).1 matches Ok(Some(c))
                ==> search_grpc_request_after(old(self).spec_request(), close_end_ms, c, final(self).spec_request())),
    {
        if self.finished {
            return Ok(());
        }
        self.apply_advance(next_cursor, done)
    }

    fn apply_advance(&mut self, next_cursor: Option<&str>, done: bool) -> (r: Result<(), SdkError>)
        requires
            !old(self).spec_finished(),
        ensures
            final(self).spec_client() == old(self).spec_client(),
            final(self).spec_state() == advance_step(old(self).spec_state(), opt_view(next_cursor), done).0,
            match advance_step(old(self).spec_state(), opt_view(next_cursor), done).1 {
                Ok(Some(c)) => r is Ok && !final(self).spec_finished() && opt_string_view(
                    final(self).spec_request().cursor,
                ) == Some(c) && final(self).spec_request() == (SearchGrpcRequest {
                    cursor: final(self).spec_request().cursor,
                    ..old(self).spec_request()
                }),
                Ok(None) => r is Ok && final(self).spec_finished() && final(self).spec_request()
                    == old(self).spec_request(),
                Err(_) => r matches Err(SdkError::ContractDrift { .. }) && !final(self).spec_finished()
                    && final(self).spec_request() == old(self).spec_request(),
            },
    {
        match self.state.advance(next_cursor, done) {
            Ok(PaginationAdvance::Continue { cursor }) => {
                self.request.cursor = Some(cursor);
                Ok(())
            },
            Ok(PaginationAdvance::Finished) => {
                self.finished = true;
                Ok(())
            },
            Err(e) => Err(e),
        }
    }
}

/// A `TimeMachineRequest` ready to be sent once or traversed.
#[derive(Debug)]
pub struct TimeMachineBarsCall<'a> {
    client: &'a Aggregator,
    request: TimeMachineRequest,
}

/// Page-by-page traversal of a `TimeMachineRequest`.
#[derive(Debug)]
pub struct TimeMachineBarsPager<'a> {
    client: &'a Aggregator,
    request: TimeMachineRequest,
    state: PaginationState,
    finished: bool,
}

impl<'a> TimeMachineBarsCall<'a> {
    pub closed spec fn spec_request(&self) -> TimeMachineRequest {
        self.request
    }

    pub closed spec fn spec_client(&self) -> &'a Aggregator {
        self.client
    }

    pub fn new(client: &'a Aggregator, request: TimeMachineRequest) -> (r: Self)
        ensures
            r.spec_request() == request,
            r.spec_client() == client,
    {
        TimeMachineBarsCall { client, request }
    }

    /// The client the request goes to.
    pub fn client(&self) -> (r: &'a Aggregator)
        ensures
            r == self.spec_client(),
    {
        self.client
    }

    /// The request as it will be sent.
    pub fn request(&self) -> (r: &TimeMachineRequest)
        ensures
            *r == self.spec_request(),
    {
        &self.request
    }

    /// A pager over the request's pages.
    pub fn pager(self) -> (r: Result<TimeMachineBarsPager<'a>, SdkError>)
        ensures
            self.spec_request().close_end is Some <==> r is Ok,
            r is Err ==> (r matches Err(SdkError::UnsupportedOrUnprovedUsage { message })
                && message@ == "time-machine"@ + " traversal requires explicit close_end"@),
            r matches Ok(p) ==> p.spec_request() == self.spec_request() && !p.spec_finished()
                && p.spec_state() == (PaginationStateView {
                pages_fetched: 0,
                max_pages: DEFAULT_TRAVERSE_MAX_PAGES as nat,
                last_cursor: None,
            }) && p.spec_client() == self.spec_client(),
    {
        require_explicit_close_end(self.request.close_end.as_ref(), "time-machine")?;
        Ok(TimeMachineBarsPager::new(self.client, self.request))
    }
}

impl<'a> TimeMachineBarsPager<'a> {
    pub closed spec fn spec_request(&self) -> TimeMachineRequest {
        self.request
    }

    pub closed spec fn spec_finished(&self) -> bool {
        self.finished
    }

    pub closed spec fn spec_state(&self) -> PaginationStateView {
        self.state@
    }

    pub closed spec fn spec_client(&self) -> &'a Aggregator {
        self.client
    }

    fn new(client: &'a Aggregator, request: TimeMachineRequest) -> (r: Self)
        ensures
            r.spec_request() == request,
            !r.spec_finished(),
            r.spec_state() == (PaginationStateView {
                pages_fetched: 0,
                max_pages: DEFAULT_TRAVERSE_MAX_PAGES as nat,
                last_cursor: None,
            }),
            r.spec_client() == client,
    {
        TimeMachineBarsPager { client, request, state: PaginationState::new(), finished: false }
    }

    pub fn pages_fetched(&self) -> (r: usize)
        ensures
            r == self.spec_state().pages_fetched,
    {
        self.state.pages_fetched()
    }

    /// The client the pages come from.
    pub fn client(&self) -> (r: &'a Aggregator)
        ensures
            r == self.spec_client(),
    {
        self.client
    }

    /// The request for the next page, or `None` once the traversal has ended.
    pub fn pending_request(&self) -> (r: Option<&TimeMachineRequest>)
        ensures
            self.spec_finished() ==> r is None,
            !self.spec_finished() ==> (r matches Some(q) && *q == self.spec_request()),
    {
        if self.finished {
            None
        } else {
            Some(&self.request)
        }
    }

    /// Takes in the page just fetched: its close end, next cursor and done
    /// flag. The traversal goes on with the next cursor, ends when the page is done or
    /// has no cursor, and is refused when the budget is spent or the cursor
    /// repeats. Once the traversal has ended, a page changes nothing.
    pub fn record_page(&mut self, close_end_ms: i64, next_cursor: Option<&str>, done: bool) -> (r:
        Result<(), SdkError>)
        ensures
            !old(self).spec_finished() ==> (final(self).spec_client() == old(self).spec_client()),
            !old(self).spec_finished() ==> (final(self).spec_state() == advance_step(old(self).spec_state(), opt_view(next_cursor), done).0),
            !old(self).spec_finished() ==> (final(self).spec_request().close_end == frozen_close_end(
                old(self).spec_request().close_end,
                false,
                close_end_ms,
            )),
            !old(self).spec_finished() ==> (match advance_step(old(self).spec_state(), opt_view(next_cursor), done).1 {
                Ok(Some(c)) => r is Ok && !final(self).spec_finished() && opt_string_view(
                    final(self).spec_request().cursor,
                ) == Some(c) && final(self).spec_request() == (TimeMachineRequest {
                    cursor: final(self).spec_request().cursor,
                    close_end: final(self).spec_request().close_end,
                    ..old(self).spec_request()
                }),
                Ok(None) => r is Ok && final(self).spec_finished() && final(self).spec_request() == (TimeMachineRequest {
                    close_end: final(self).spec_request().close_end,
                    ..old(self).spec_request()
                }),
                Err(_) => r matches Err(SdkError::ContractDrift { .. }) && !final(self).spec_finished()
                    && final(self).spec_request() == (TimeMachineRequest {
                    close_end: final(self).spec_request().close_end,
                    ..old(self).spec_request()
                }),
            }),
            old(self).spec_finished() ==> (r is Ok && *final(self) == *old(self)),
            (final(self).spec_state(), final(self).spec_finished()) == pager_step(
                old(self).spec_state(),
                old(self).spec_finished(),
                (opt_view(next_cursor), done),
            ),
            !old(self).spec_finished() ==> (advance_step(old(self).spec_state(), opt_view(next_cursor), done).1 matches Ok(Some(c))
                ==> time_machine_request_after(old(self).spec_request(), close_end_ms, c, final(self).spec_request())),
    {
        if self.finished {
            return Ok(());
        }
        self.apply_advance(next_cursor, done)
    }

    fn apply_advance(&mut self, next_cursor: Option<&str>, done: bool) -> (r: Result<(), SdkError>)
        requires
            !old(self).spec_finished(),
        ensures
            final(self).spec_client() == old(self).spec_client(),
            final(self).spec_state() == advance_step(old(self).spec_state(), opt_view(next_cursor), done).0,
            match advance_step(old(self).spec_state(), opt_view(next_cursor), done).1 {
                Ok(Some(c)) => r is Ok && !final(self).spec_finished() && opt_string_view(
                    final(self).spec_request().cursor,
                ) == Some(c) && final(self).spec_request() == (TimeMachineRequest {
                    cursor: final(self).spec_request().cursor,
                    ..old(self).spec_request()
                }),
                Ok(None) => r is Ok && final(self).spec_finished() && final(self).spec_request()
                    == old(self).spec_request(),
                Err(_) => r matches Err(SdkError::ContractDrift { .. }) && !final(self).spec_finished()
                    && final(self).spec_request() == old(self).spec_request(),
            },
    {
        match self.state.advance(next_cursor, done) {
            Ok(PaginationAdvance::Continue { cursor }) => {
                self.request.cursor = Some(cursor);
                Ok(())
            },
            Ok(PaginationAdvance::Finished) => {
                self.finished = true;
                Ok(())
            },
            Err(e) => Err(e),
        }
    }
}

/// A `TimeMachineGrpcRequest` ready to be sent once or traversed.
#[derive(Debug)]
pub struct TimeMachineBarsGrpcCall<'a> {
    client: &'a Aggregator,
    request: TimeMachineGrpcRequest,
}

/// Page-by-page traversal of a `TimeMachineGrpcRequest`.
#[derive(Debug)]
pub struct TimeMachineBarsGrpcPager<'a> {
    client: &'a Aggregator,
    request: TimeMachineGrpcRequest,
    state: PaginationState,
    finished: bool,
}

impl<'a> TimeMachineBarsGrpcCall<'a> {
    pub closed spec fn spec_request(&self) -> TimeMachineGrpcRequest {
        self.request
    }

    pub closed spec fn spec_client(&self) -> &'a Aggregator {
        self.client
    }

    pub fn new(client: &'a Aggregator, request: TimeMachineGrpcRequest) -> (r: Self)
        ensures
            r.spec_request() == request,
            r.spec_client() == client,
    {
        TimeMachineBarsGrpcCall { client, request }
    }

    /// The client the request goes to.
    pub fn client(&self) -> (r: &'a Aggregator)
        ensures
            r == self.spec_client(),
    {
        self.client
    }

    /// The request as it will be sent.
    pub fn request(&self) -> (r: &TimeMachineGrpcRequest)
        ensures
            *r == self.spec_request(),
    {
        &self.request
    }

    /// A pager over the request's pages.
    pub fn pager(self) -> (r: Result<TimeMachineBarsGrpcPager<'a>, SdkError>)
        ensures
            self.spec_request().close_end is Some <==> r is Ok,
            r is Err ==> (r matches Err(SdkError::UnsupportedOrUnprovedUsage { message })
                && message@ == "time-machine"@ + " traversal requires explicit close_end"@),
            r matches Ok(p) ==> p.spec_request() == self.spec_request() && !p.spec_finished()
                && p.spec_state() == (PaginationStateView {
                pages_fetched: 0,
                max_pages: DEFAULT_TRAVERSE_MAX_PAGES as nat,
                last_cursor: None,
            }) && p.spec_client() == self.spec_client(),
    {
        require_explicit_close_end(self.request.close_end.as_ref(), "time-machine")?;
        Ok(TimeMachineBarsGrpcPager::new(self.client, self.request))
    }
}

impl<'a> TimeMachineBarsGrpcPager<'a> {
    pub closed spec fn spec_request(&self) -> TimeMachineGrpcRequest {
        self.request
    }

    pub closed spec fn spec_finished(&self) -> bool {
        self.finished
    }

    pub closed spec fn spec_state(&self) -> PaginationStateView {
        self.state@
    }

    pub closed spec fn spec_client(&self) -> &'a Aggregator {
        self.client
    }

    fn new(client: &'a Aggregator, request: TimeMachineGrpcRequest) -> (r: Self)
        ensures
            r.spec_request() == request,
            !r.spec_finished(),
            r.spec_state() == (PaginationStateView {
                pages_fetched: 0,
                max_pages: DEFAULT_TRAVERSE_MAX_PAGES as nat,
                last_cursor: None,
            }),
            r.spec_client() == client,
    {
        TimeMachineBarsGrpcPager { client, request, state: PaginationState::new(), finished: false }
    }

    pub fn pages_fetched(&self) -> (r: usize)
        ensures
            r == self.spec_state().pages_fetched,
    {
        self.state.pages_fetched()
    }

    /// The client the pages come from.
    pub fn client(&self) -> (r: &'a Aggregator)
        ensures
            r == self.spec_client(),
    {
        self.client
    }

    /// The request for the next page, or `None` once the traversal has ended.
    pub fn pending_request(&self) -> (r: Option<&TimeMachineGrpcRequest>)
        ensures
            self.spec_finished() ==> r is None,
            !self.spec_finished() ==> (r matches Some(q) && *q == self.spec_request()),
    {
        if self.finished {
            None
        } else {
            Some(&self.request)
        }
    }

    /// Takes in the page just fetched: its close end, next cursor and done
    /// flag. The traversal goes on with the next cursor, ends when the page is done or
    /// has no cursor, and is refused when the budget is spent or the cursor
    /// repeats. Once the traversal has ended, a page changes nothing.
    pub fn record_page(&mut self, close_end_ms: i64, next_cursor: Option<&str>, done: bool) -> (r:
        Result<(), SdkError>)
        ensures
            !old(self).spec_finished() ==> (final(self).spec_client() == old(self).spec_client()),
            !old(self).spec_finished() ==> (final(self).spec_state() == advance_step(old(self).spec_state(), opt_view(next_cursor), done).0),
            !old(self).spec_finished() ==> (final(self).spec_request().close_end == frozen_close_end(
                old(self).spec_request().close_end,
                false,
                close_end_ms,
            )),
            !old(self).spec_finished() ==> (match advance_step(old(self).spec_state(), opt_view(next_cursor), done).1 {
                Ok(Some(c)) => r is Ok && !final(self).spec_finished() && opt_string_view(
                    final(self).spec_request().cursor,
                ) == Some(c) && final(self).spec_request() == (TimeMachineGrpcRequest {
                    cursor: final(self).spec_request().cursor,
                    close_end: final(self).spec_request().close_end,
                    ..old(self).spec_request()
                }),
                Ok(None) => r is Ok && final(self).spec_finished() && final(self).spec_request() == (TimeMachineGrpcRequest {
                    close_end: final(self).spec_request().close_end,
                    ..old(self).spec_request()
                }),
                Err(_) => r matches Err(SdkError::ContractDrift { .. }) && !final(self).spec_finished()
                    && final(self).spec_request() == (TimeMachineGrpcRequest {
                    close_end: final(self).spec_request().close_end,
                    ..old(self).spec_request()
                }),
            }),
            old(self).spec_finished() ==> (r is Ok && *final(self) == *old(self)),
            (final(self).spec_state(), final(self).spec_finished()) == pager_step(
                old(self).spec_state(),
                old(self).spec_finished(),
                (opt_view(next_cursor), done),
            ),
            !old(self).spec_finished() ==> (advance_step(old(self).spec_state(), opt_view(next_cursor), done).1 matches Ok(Some(c))
                ==> time_machine_grpc_request_after(old(self).spec_request(), close_end_ms, c, final(self).spec_request())),
    {
        if self.finished {
            return Ok(());
        }
        self.apply_advance(next_cursor, done)
    }

    fn apply_advance(&mut self, next_cursor: Option<&str>, done: bool) -> (r: Result<(), SdkError>)
        requires
            !old(self).spec_finished(),
        ensures
            final(self).spec_client() == old(self).spec_client(),
            final(self).spec_state() == advance_step(old(self).spec_state(), opt_view(next_cursor), done).0,
            match advance_step(old(self).spec_state(), opt_view(next_cursor), done).1 {
                Ok(Some(c)) => r is Ok && !final(self).spec_finished() && opt_string_view(
                    final(self).spec_request().cursor,
                ) == Some(c) && final(self).spec_request() == (TimeMachineGrpcRequest {
                    cursor: final(self).spec_request().cursor,
                    ..old(self).spec_request()
                }),
                Ok(None) => r is Ok && final(self).spec_finished() && final(self).spec_request()
                    == old(self).spec_request(),
                Err(_) => r matches Err(SdkError::ContractDrift { .. }) && !final(self).spec_finished()
                    && final(self).spec_request() == old(self).spec_request(),
            },
    {
        match self.state.advance(next_cursor, done) {
            Ok(PaginationAdvance::Continue { cursor }) => {
                self.request.cursor = Some(cursor);
                Ok(())
            },
            Ok(PaginationAdvance::Finished) => {
                self.finished = true;
                Ok(())
            },
            Err(e) => Err(e),
        }
    }
}

/// How a traversal's `RangeRequest` moves on after a page that hands out cursor
/// `c`: the cursor is `c`, an omitted end is frozen to the page's, and every other
/// field stays.
pub open spec fn range_request_after(q: RangeRequest, close_end_ms: i64, c: Seq<char>, q2: RangeRequest) -> bool {
    &&& opt_string_view(q2.cursor) == Some(c)
    &&& q2 == (RangeRequest { cursor: q2.cursor, close_end: frozen_close_end(q.close_end, true, close_end_ms), ..q })
}

proof fn lemma_range_request_at(qs: Seq<RangeRequest>, pages: Seq<(i64, Seq<char>)>, i: int)
    requires
        qs.len() == pages.len() + 1,
        forall|j: int| 0 <= j < pages.len() ==> range_request_after(#[trigger] qs[j], pages[j].0, pages[j].1, qs[j + 1]),
        1 <= i < qs.len(),
    ensures
        opt_string_view(qs[i].cursor) == Some(pages[i - 1].1),
        qs[i].close_end == frozen_close_end(qs[0].close_end, true, pages[0].0),
        qs[i] == (RangeRequest { cursor: qs[i].cursor, close_end: qs[i].close_end, ..qs[0] }),
    decreases i,
{
    assert(range_request_after(qs[i - 1], pages[i - 1].0, pages[i - 1].1, qs[i]));
    if i > 1 {
        lemma_range_request_at(qs, pages, i - 1);
    }
}

/// The requests a `RangeRequest` traversal sends: after the first, each carries the
/// previous page's cursor and the end frozen to the first page's when it was omitted; every other field is the
/// first request's.
pub proof fn law_range_traversal_requests(qs: Seq<RangeRequest>, pages: Seq<(i64, Seq<char>)>)
    requires
        qs.len() == pages.len() + 1,
        forall|j: int| 0 <= j < pages.len() ==> range_request_after(#[trigger] qs[j], pages[j].0, pages[j].1, qs[j + 1]),
    ensures
        forall|i: int|
            1 <= i < qs.len() ==> opt_string_view(#[trigger] qs[i].cursor) == Some(pages[i - 1].1)
                && qs[i].close_end == frozen_close_end(qs[0].close_end, true, pages[0].0)
                && qs[i] == (RangeRequest { cursor: qs[i].cursor, close_end: qs[i].close_end, ..qs[0] }),
{
    assert forall|i: int| 1 <= i < qs.len() implies opt_string_view(#[trigger] qs[i].cursor) == Some(pages[i - 1].1)
        && qs[i].close_end == frozen_close_end(qs[0].close_end, true, pages[0].0)
        && qs[i] == (RangeRequest { cursor: qs[i].cursor, close_end: qs[i].close_end, ..qs[0] }) by {
        lemma_range_request_at(qs, pages, i);
    }
}

/// How a traversal's `RangeGrpcRequest` moves on after a page that hands out cursor
/// `c`: the cursor is `c`, an omitted end is frozen to the page's, and every other
/// field stays.
pub open spec fn range_grpc_request_after(q: RangeGrpcRequest, close_end_ms: i64, c: Seq<char>, q2: RangeGrpcRequest) -> bool {
    &&& opt_string_view(q2.cursor) == Some(c)
    &&& q2 == (RangeGrpcRequest { cursor: q2.cursor, close_end: frozen_close_end(q.close_end, true, close_end_ms), ..q })
}

proof fn lemma_range_grpc_request_at(qs: Seq<RangeGrpcRequest>, pages: Seq<(i64, Seq<char>)>, i: int)
    requires
        qs.len() == pages.len() + 1,
        forall|j: int| 0 <= j < pages.len() ==> range_grpc_request_after(#[trigger] qs[j], pages[j].0, pages[j].1, qs[j + 1]),
        1 <= i < qs.len(),
    ensures
        opt_string_view(qs[i].cursor) == Some(pages[i - 1].1),
        qs[i].close_end == frozen_close_end(qs[0].close_end, true, pages[0].0),
        qs[i] == (RangeGrpcRequest { cursor: qs[i].cursor, close_end: qs[i].close_end, ..qs[0] }),
    decreases i,
{
    assert(range_grpc_request_after(qs[i - 1], pages[i - 1].0, pages[i - 1].1, qs[i]));
    if i > 1 {
        lemma_range_grpc_request_at(qs, pages, i - 1);
    }
}

/// The requests a `RangeGrpcRequest` traversal sends: after the first, each carries the
/// previous page's cursor and the end frozen to the first page's when it was omitted; every other field is the
/// first request's.
pub proof fn law_range_grpc_traversal_requests(qs: Seq<RangeGrpcRequest>, pages: Seq<(i64, Seq<char>)>)
    requires
        qs.len() == pages.len() + 1,
        forall|j: int| 0 <= j < pages.len() ==> range_grpc_request_after(#[trigger] qs[j], pages[j].0, pages[j].1, qs[j + 1]),
    ensures
        forall|i: int|
            1 <= i < qs.len() ==> opt_string_view(#[trigger] qs[i].cursor) == Some(pages[i - 1].1)
                && qs[i].close_end == frozen_close_end(qs[0].close_end, true, pages[0].0)
                && qs[i] == (RangeGrpcRequest { cursor: qs[i].cursor, close_end: qs[i].close_end, ..qs[0] }),
{
    assert forall|i: int| 1 <= i < qs.len() implies opt_string_view(#[trigger] qs[i].cursor) == Some(pages[i - 1].1)
        && qs[i].close_end == frozen_close_end(qs[0].close_end, true, pages[0].0)
        && qs[i] == (RangeGrpcRequest { cursor: qs[i].cursor, close_end: qs[i].close_end, ..qs[0] }) by {
        lemma_range_grpc_request_at(qs, pages, i);
    }
}

/// How a traversal's `SearchRequest` moves on after a page that hands out cursor
/// `c`: the cursor is `c`, an omitted end is left as it is, and every other
/// field stays.
pub open spec fn search_request_after(q: SearchRequest, close_end_ms: i64, c: Seq<char>, q2: SearchRequest) -> bool {
    &&& opt_string_view(q2.cursor) == Some(c)
    &&& q2 == (SearchRequest { cursor: q2.cursor, close_end: frozen_close_end(q.close_end, false, close_end_ms), ..q })
}

proof fn lemma_search_request_at(qs: Seq<SearchRequest>, pages: Seq<(i64, Seq<char>)>, i: int)
    requires
        qs.len() == pages.len() + 1,
        forall|j: int| 0 <= j < pages.len() ==> search_request_after(#[trigger] qs[j], pages[j].0, pages[j].1, qs[j + 1]),
        1 <= i < qs.len(),
    ensures
        opt_string_view(qs[i].cursor) == Some(pages[i - 1].1),
        qs[i].close_end == frozen_close_end(qs[0].close_end, false, pages[0].0),
        qs[i] == (SearchRequest { cursor: qs[i].cursor, close_end: qs[i].close_end, ..qs[0] }),
    decreases i,
{
    assert(search_request_after(qs[i - 1], pages[i - 1].0, pages[i - 1].1, qs[i]));
    if i > 1 {
        lemma_search_request_at(qs, pages, i - 1);
    }
}

/// The requests a `SearchRequest` traversal sends: after the first, each carries the
/// previous page's cursor and the end of the first request; every other field is the
/// first request's.
pub proof fn law_search_traversal_requests(qs: Seq<SearchRequest>, pages: Seq<(i64, Seq<char>)>)
    requires
        qs.len() == pages.len() + 1,
        forall|j: int| 0 <= j < pages.len() ==> search_request_after(#[trigger] qs[j], pages[j].0, pages[j].1, qs[j + 1]),
    ensures
        forall|i: int|
            1 <= i < qs.len() ==> opt_string_view(#[trigger] qs[i].cursor) == Some(pages[i - 1].1)
                && qs[i].close_end == frozen_close_end(qs[0].close_end, false, pages[0].0)
                && qs[i] == (SearchRequest { cursor: qs[i].cursor, close_end: qs[i].close_end, ..qs[0] }),
{
    assert forall|i: int| 1 <= i < qs.len() implies opt_string_view(#[trigger] qs[i].cursor) == Some(pages[i - 1].1)
        && qs[i].close_end == frozen_close_end(qs[0].close_end, false, pages[0].0)
        && qs[i] == (SearchRequest { cursor: qs[i].cursor, close_end: qs[i].close_end, ..qs[0] }) by {
        lemma_search_request_at(qs, pages, i);
    }
}

/// How a traversal's `SearchGrpcRequest` moves on after a page that hands out cursor
/// `c`: the cursor is `c`, an omitted end is left as it is, and every other
/// field stays.
pub open spec fn search_grpc_request_after(q: SearchGrpcRequest, close_end_ms: i64, c: Seq<char>, q2: SearchGrpcRequest) -> bool {
    &&& opt_string_view(q2.cursor) == Some(c)
    &&& q2 == (SearchGrpcRequest { cursor: q2.cursor, close_end: frozen_close_end(q.close_end, false, close_end_ms), ..q })
}

proof fn lemma_search_grpc_request_at(qs: Seq<SearchGrpcRequest>, pages: Seq<(i64, Seq<char>)>, i: int)
    requires
        qs.len() == pages.len() + 1,
        forall|j: int| 0 <= j < pages.len() ==> search_grpc_request_after(#[trigger] qs[j], pages[j].0, pages[j].1, qs[j + 1]),
        1 <= i < qs.len(),
    ensures
        opt_string_view(qs[i].cursor) == Some(pages[i - 1].1),
        qs[i].close_end == frozen_close_end(qs[0].close_end, false, pages[0].0),
        qs[i] == (SearchGrpcRequest { cursor: qs[i].cursor, close_end: qs[i].close_end, ..qs[0] }),
    decreases i,
{
    assert(search_grpc_request_after(qs[i - 1], pages[i - 1].0, pages[i - 1].1, qs[i]));
    if i > 1 {
        lemma_search_grpc_request_at(qs, pages, i - 1);
    }
}

/// The requests a `SearchGrpcRequest` traversal sends: after the first, each carries the
/// previous page's cursor and the end of the first request; every other field is the
/// first request's.
pub proof fn law_search_grpc_traversal_requests(qs: Seq<SearchGrpcRequest>, pages: Seq<(i64, Seq<char>)>)
    requires
        qs.len() == pages.len() + 1,
        forall|j: int| 0 <= j < pages.len() ==> search_grpc_request_after(#[trigger] qs[j], pages[j].0, pages[j].1, qs[j + 1]),
    ensures
        forall|i: int|
            1 <= i < qs.len() ==> opt_string_view(#[trigger] qs[i].cursor) == Some(pages[i - 1].1)
                && qs[i].close_end == frozen_close_end(qs[0].close_end, false, pages[0].0)
                && qs[i] == (SearchGrpcRequest { cursor: qs[i].cursor, close_end: qs[i].close_end, ..qs[0] }),
{
    assert forall|i: int| 1 <= i < qs.len() implies opt_string_view(#[trigger] qs[i].cursor) == Some(pages[i - 1].1)
        && qs[i].close_end == frozen_close_end(qs[0].close_end, false, pages[0].0)
        && qs[i] == (SearchGrpcRequest { cursor: qs[i].cursor, close_end: qs[i].close_end, ..qs[0] }) by {
        lemma_search_grpc_request_at(qs, pages, i);
    }
}

/// How a traversal's `TimeMachineRequest` moves on after a page that hands out cursor
/// `c`: the cursor is `c`, an omitted end is left as it is, and every other
/// field stays.
pub open spec fn time_machine_request_after(q: TimeMachineRequest, close_end_ms: i64, c: Seq<char>, q2: TimeMachineRequest) -> bool {
    &&& opt_string_view(q2.cursor) == Some(c)
    &&& q2 == (TimeMachineRequest { cursor: q2.cursor, close_end: frozen_close_end(q.close_end, false, close_end_ms), ..q })
}

proof fn lemma_time_machine_request_at(qs: Seq<TimeMachineRequest>, pages: Seq<(i64, Seq<char>)>, i: int)
    requires
        qs.len() == pages.len() + 1,
        forall|j: int| 0 <= j < pages.len() ==> time_machine_request_after(#[trigger] qs[j], pages[j].0, pages[j].1, qs[j + 1]),
        1 <= i < qs.len(),
    ensures
        opt_string_view(qs[i].cursor) == Some(pages[i - 1].1),
        qs[i].close_end == frozen_close_end(qs[0].close_end, false, pages[0].0),
        qs[i] == (TimeMachineRequest { cursor: qs[i].cursor, close_end: qs[i].close_end, ..qs[0] }),
    decreases i,
{
    assert(time_machine_request_after(qs[i - 1], pages[i - 1].0, pages[i - 1].1, qs[i]));
    if i > 1 {
        lemma_time_machine_request_at(qs, pages, i - 1);
    }
}

/// The requests a `TimeMachineRequest` traversal sends: after the first, each carries the
/// previous page's cursor and the end of the first request; every other field is the
/// first request's.
pub proof fn law_time_machine_traversal_requests(qs: Seq<TimeMachineRequest>, pages: Seq<(i64, Seq<char>)>)
    requires
        qs.len() == pages.len() + 1,
        forall|j: int| 0 <= j < pages.len() ==> time_machine_request_after(#[trigger] qs[j], pages[j].0, pages[j].1, qs[j + 1]),
    ensures
        forall|i: int|
            1 <= i < qs.len() ==> opt_string_view(#[trigger] qs[i].cursor) == Some(pages[i - 1].1)
                && qs[i].close_end == frozen_close_end(qs[0].close_end, false, pages[0].0)
                && qs[i] == (TimeMachineRequest { cursor: qs[i].cursor, close_end: qs[i].close_end, ..qs[0] }),
{
    assert forall|i: int| 1 <= i < qs.len() implies opt_string_view(#[trigger] qs[i].cursor) == Some(pages[i - 1].1)
        && qs[i].close_end == frozen_close_end(qs[0].close_end, false, pages[0].0)
        && qs[i] == (TimeMachineRequest { cursor: qs[i].cursor, close_end: qs[i].close_end, ..qs[0] }) by {
        lemma_time_machine_request_at(qs, pages, i);
    }
}

/// How a traversal's `TimeMachineGrpcRequest` moves on after a page that hands out cursor
/// `c`: the cursor is `c`, an omitted end is left as it is, and every other
/// field stays.
pub open spec fn time_machine_grpc_request_after(q: TimeMachineGrpcRequest, close_end_ms: i64, c: Seq<char>, q2: TimeMachineGrpcRequest) -> bool {
    &&& opt_string_view(q2.cursor) == Some(c)
    &&& q2 == (TimeMachineGrpcRequest { cursor: q2.cursor, close_end: frozen_close_end(q.close_end, false, close_end_ms), ..q })
}

proof fn lemma_time_machine_grpc_request_at(qs: Seq<TimeMachineGrpcRequest>, pages: Seq<(i64, Seq<char>)>, i: int)
    requires
        qs.len() == pages.len() + 1,
        forall|j: int| 0 <= j < pages.len() ==> time_machine_grpc_request_after(#[trigger] qs[j], pages[j].0, pages[j].1, qs[j + 1]),
        1 <= i < qs.len(),
    ensures
        opt_string_view(qs[i].cursor) == Some(pages[i - 1].1),
        qs[i].close_end == frozen_close_end(qs[0].close_end, false, pages[0].0),
        qs[i] == (TimeMachineGrpcRequest { cursor: qs[i].cursor, close_end: qs[i].close_end, ..qs[0] }),
    decreases i,
{
    assert(time_machine_grpc_request_after(qs[i - 1], pages[i - 1].0, pages[i - 1].1, qs[i]));
    if i > 1 {
        lemma_time_machine_grpc_request_at(qs, pages, i - 1);
    }
}

/// The requests a `TimeMachineGrpcRequest` traversal sends: after the first, each carries the
/// previous page's cursor and the end of the first request; every other field is the
/// first request's.
pub proof fn law_time_machine_grpc_traversal_requests(qs: Seq<TimeMachineGrpcRequest>, pages: Seq<(i64, Seq<char>)>)
    requires
        qs.len() == pages.len() + 1,
        forall|j: int| 0 <= j < pages.len() ==> time_machine_grpc_request_after(#[trigger] qs[j], pages[j].0, pages[j].1, qs[j + 1]),
    ensures
        forall|i: int|
            1 <= i < qs.len() ==> opt_string_view(#[trigger] qs[i].cursor) == Some(pages[i - 1].1)
                && qs[i].close_end == frozen_close_end(qs[0].close_end, false, pages[0].0)
                && qs[i] == (TimeMachineGrpcRequest { cursor: qs[i].cursor, close_end: qs[i].close_end, ..qs[0] }),
{
    assert forall|i: int| 1 <= i < qs.len() implies opt_string_view(#[trigger] qs[i].cursor) == Some(pages[i - 1].1)
        && qs[i].close_end == frozen_close_end(qs[0].close_end, false, pages[0].0)
        && qs[i] == (TimeMachineGrpcRequest { cursor: qs[i].cursor, close_end: qs[i].close_end, ..qs[0] }) by {
        lemma_time_machine_grpc_request_at(qs, pages, i);
    }
}


/// A whole range traversal, page by page. Start from a fresh pager (no page
/// fetched, the default budget, not finished) and take in pages whose first
/// `k` form a whole traversal: each but the `k`-th hands out a new cursor,
/// and the `k`-th ends it. Then:
/// - before each of the first `k` pages the pager is unfinished, so a
///   request is sent; the first is the original request, and the one before
///   page `i` (from 1) carries page `i - 1`'s cursor, the end frozen to the
///   first page's when it was omitted, and otherwise the original's fields;
/// - after the `k`-th page the pager has finished with `k` pages fetched,
///   `k` within the budget, and further pages change nothing, so no further
///   request is sent.
pub proof fn law_range_bars_traversal(
    vs: Seq<RangeBarsPagerView>,
    pages: Seq<(i64, Option<Seq<char>>, bool)>,
    k: nat,
)
    requires
        vs.len() == pages.len() + 1,
        vs[0].state == (PaginationStateView {
            pages_fetched: 0,
            max_pages: DEFAULT_TRAVERSE_MAX_PAGES as nat,
            last_cursor: None,
        }),
        !vs[0].finished,
        forall|i: int| 0 <= i < pages.len() ==> range_pager_moves(#[trigger] vs[i], pages[i], vs[i + 1]),
        1 <= k <= pages.len(),
        run_ends(vs[0].state, page_outcomes(pages).subrange(0, k as int)),
    ensures
        forall|i: int| 0 <= i < k ==> !(#[trigger] vs[i]).finished,
        forall|i: int|
            1 <= i < k ==> opt_string_view((#[trigger] vs[i]).request.cursor) == pages[i - 1].1
                && vs[i].request.close_end == frozen_close_end(vs[0].request.close_end, true, pages[0].0)
                && vs[i].request == (RangeRequest {
                    cursor: vs[i].request.cursor,
                    close_end: vs[i].request.close_end,
                    ..vs[0].request
                }),
        vs[k as int].finished,
        vs[k as int].state.pages_fetched == k,
        k <= DEFAULT_TRAVERSE_MAX_PAGES,
        forall|j: int| k <= j < vs.len() ==> #[trigger] vs[j] == vs[k as int],
{
    let s0 = vs[0].state;
    let outs = page_outcomes(pages).subrange(0, k as int);
    assert(vs[k as int].finished && vs[k as int].state.pages_fetched == k && k <= DEFAULT_TRAVERSE_MAX_PAGES
        && forall|i: int| 0 <= i < k ==> !(#[trigger] vs[i]).finished) by {
        lemma_range_traversal_prefix(vs, pages, k, k);
        assert(outs.subrange(0, k as int) =~= outs);
        law_whole_traversal_counts(s0, outs);
    }
    assert forall|j: int| k <= j < vs.len() implies #[trigger] vs[j] == vs[k as int] by {
        lemma_range_finished_stays(vs, pages, k as int, j);
    }
    assert forall|i: int|
        1 <= i < k implies opt_string_view((#[trigger] vs[i]).request.cursor) == pages[i - 1].1
            && vs[i].request.close_end == frozen_close_end(vs[0].request.close_end, true, pages[0].0)
            && vs[i].request == (RangeRequest {
                cursor: vs[i].request.cursor,
                close_end: vs[i].request.close_end,
                ..vs[0].request
            }) by {
        lemma_range_request_before(vs, pages, k, i);
    }
}

/// Along the first `n` pages of a whole traversal of `k`, the pager follows
/// the run of page states and stays unfinished until the `k`-th.
proof fn lemma_range_traversal_prefix(
    vs: Seq<RangeBarsPagerView>,
    pages: Seq<(i64, Option<Seq<char>>, bool)>,
    k: nat,
    n: nat,
)
    requires
        vs.len() == pages.len() + 1,
        !vs[0].finished,
        forall|i: int| 0 <= i < pages.len() ==> range_pager_moves(#[trigger] vs[i], pages[i], vs[i + 1]),
        1 <= k <= pages.len(),
        run_ends(vs[0].state, page_outcomes(pages).subrange(0, k as int)),
        n <= k,
    ensures
        vs[n as int].state == run_state(vs[0].state, page_outcomes(pages).subrange(0, k as int).subrange(0, n as int)),
        vs[n as int].finished == (n == k),
        forall|i: int| 0 <= i < n ==> !(#[trigger] vs[i]).finished,
    decreases n,
{
    let outs = page_outcomes(pages).subrange(0, k as int);
    if n == 0 {
        assert(outs.subrange(0, 0).len() == 0);
    } else {
        lemma_range_traversal_prefix(vs, pages, k, (n - 1) as nat);
        let i = n - 1;
        lemma_run_ends_at(vs[0].state, outs, i);
        assert(outs[i] == (pages[i].1, pages[i].2));
        assert(range_pager_moves(vs[i], pages[i], vs[i + 1]));
    }
}

/// Once a traversal has ended at page `k`, the pager stays as it is.
proof fn lemma_range_finished_stays(vs: Seq<RangeBarsPagerView>, pages: Seq<(i64, Option<Seq<char>>, bool)>, k: int, j: int)
    requires
        vs.len() == pages.len() + 1,
        forall|i: int| 0 <= i < pages.len() ==> range_pager_moves(#[trigger] vs[i], pages[i], vs[i + 1]),
        0 <= k <= j < vs.len(),
        vs[k].finished,
    ensures
        vs[j] == vs[k],
    decreases j - k,
{
    if j > k {
        lemma_range_finished_stays(vs, pages, k, j - 1);
        assert(range_pager_moves(vs[j - 1], pages[j - 1], vs[j]));
    }
}

/// The request sent before page `i` of a whole traversal of `k` pages.
proof fn lemma_range_request_before(
    vs: Seq<RangeBarsPagerView>,
    pages: Seq<(i64, Option<Seq<char>>, bool)>,
    k: nat,
    i: int,
)
    requires
        vs.len() == pages.len() + 1,
        !vs[0].finished,
        forall|j: int| 0 <= j < pages.len() ==> range_pager_moves(#[trigger] vs[j], pages[j], vs[j + 1]),
        1 <= k <= pages.len(),
        run_ends(vs[0].state, page_outcomes(pages).subrange(0, k as int)),
        1 <= i < k,
    ensures
        opt_string_view(vs[i].request.cursor) == pages[i - 1].1,
        vs[i].request.close_end == frozen_close_end(vs[0].request.close_end, true, pages[0].0),
        vs[i].request == (RangeRequest { cursor: vs[i].request.cursor, close_end: vs[i].request.close_end, ..vs[0].request }),
    decreases i,
{
    let outs = page_outcomes(pages).subrange(0, k as int);
    let p = i - 1;
    lemma_range_traversal_prefix(vs, pages, k, p as nat);
    lemma_run_ends_at(vs[0].state, outs, p);
    assert(outs[p] == (pages[p].1, pages[p].2));
    assert(range_pager_moves(vs[p], pages[p], vs[p + 1]));
    let c = advance_step(vs[p].state, pages[p].1, pages[p].2).1->Ok_0->Some_0;
    assert(advance_step(vs[p].state, pages[p].1, pages[p].2).1 == Ok::<Option<Seq<char>>, ()>(Some(c)));
    assert(range_request_after(vs[p].request, pages[p].0, c, vs[i].request));
    assert(pages[p].1 == Some(c));
    if i > 1 {
        lemma_range_request_before(vs, pages, k, i - 1);
    }
}

} // verus!

