//! Explicit cursor traversal: calls hand out pagers, and a pager decides,
//! page by page, the next request and when the traversal ends.
use vstd::prelude::*;
use crate::sdk_core::error::SdkError;
use crate::sdk_core::pagination::{
    PaginationAdvance, PaginationState, PaginationStateView, advance_step, opt_view, pager_step,
    require_explicit_close_end, frozen_close_end, DEFAULT_TRAVERSE_MAX_PAGES,
};
use crate::sdk_core::time::TimeInput;
use crate::sdk_core::text::opt_string_view;
use crate::systems::regime::client::Regime;
use crate::systems::regime::types::{RangeGrpcRequest, RangeRequest, SearchGrpcRequest, SearchRequest, TimeMachineGrpcRequest, TimeMachineRequest};

verus! {

/// A `RangeRequest` ready to be sent once or traversed.
#[derive(Debug)]
pub struct RangeCall<'a> {
    client: &'a Regime,
    request: RangeRequest,
}

/// Page-by-page traversal of a `RangeRequest`.
#[derive(Debug)]
pub struct RangePager<'a> {
    client: &'a Regime,
    request: RangeRequest,
    state: PaginationState,
    finished: bool,
}

impl<'a> RangeCall<'a> {
    pub closed spec fn spec_request(&self) -> RangeRequest {
        self.request
    }

    pub closed spec fn spec_client(&self) -> &'a Regime {
        self.client
    }

    pub fn new(client: &'a Regime, request: RangeRequest) -> (r: Self)
        ensures
            r.spec_request() == request,
            r.spec_client() == client,
    {
        RangeCall { client, request }
    }

    /// The client the request goes to.
    pub fn client(&self) -> (r: &'a Regime)
        ensures
            r == self.spec_client(),
    {
        self.client
    }

    /// The request as it will be sent.
    pub fn request(&self) -> (r: &RangeRequest)
        ensures
            *r == self.spec_request(),
    {
        &self.request
    }

    /// A pager over the request's pages.
    pub fn pager(self) -> (r: Result<RangePager<'a>, SdkError>)
        ensures
            r is Ok,
            r matches Ok(p) ==> p.spec_request() == self.spec_request() && !p.spec_finished()
                && p.spec_state() == (PaginationStateView {
                pages_fetched: 0,
                max_pages: DEFAULT_TRAVERSE_MAX_PAGES as nat,
                last_cursor: None,
            }) && p.spec_client() == self.spec_client(),
    {
        Ok(RangePager::new(self.client, self.request))
    }
}

impl<'a> RangePager<'a> {
    pub closed spec fn spec_request(&self) -> RangeRequest {
        self.request
    }

    pub closed spec fn spec_finished(&self) -> bool {
        self.finished
    }

    pub closed spec fn spec_state(&self) -> PaginationStateView {
        self.state@
    }

    pub closed spec fn spec_client(&self) -> &'a Regime {
        self.client
    }

    fn new(client: &'a Regime, request: RangeRequest) -> (r: Self)
        ensures
            r.spec_request() == request,
            !r.spec_finished(),
            r.spec_state() == (PaginationStateView {
                pages_fetched: 0,
                max_pages: DEFAULT_TRAVERSE_MAX_PAGES as nat,
                last_cursor: None,
            }),
            r.spec_client() == client,
    {
        RangePager { client, request, state: PaginationState::new(), finished: false }
    }

    pub fn pages_fetched(&self) -> (r: usize)
        ensures
            r == self.spec_state().pages_fetched,
    {
        self.state.pages_fetched()
    }

    /// The client the pages come from.
    pub fn client(&self) -> (r: &'a Regime)
        ensures
            r == self.spec_client(),
    {
        self.client
    }

    /// The request for the next page, or `None` once the traversal has ended.
    pub fn pending_request(&self) -> (r: Option<&RangeRequest>)
        ensures
            self.spec_finished() ==> r is None,
            !self.spec_finished() ==> (r matches Some(q) && *q == self.spec_request()),
    {
        if self.finished {
            None
        } else {
            Some(&self.request)
        }
    }

    /// Takes in the page just fetched: its close end, next cursor and done
    /// flag. An omitted close end is frozen to the page's. The
    /// traversal goes on with the next cursor, ends when the page is done or
    /// has no cursor, and is refused when the budget is spent or the cursor
    /// repeats. Once the traversal has ended, a page changes nothing.
    pub fn record_page(&mut self, close_end_ms: i64, next_cursor: Option<&str>, done: bool) -> (r:
        Result<(), SdkError>)
        ensures
            !old(self).spec_finished() ==> (final(self).spec_client() == old(self).spec_client()),
            !old(self).spec_finished() ==> (final(self).spec_state() == advance_step(old(self).spec_state(), opt_view(next_cursor), done).0),
            !old(self).spec_finished() ==> (final(self).spec_request().close_end == frozen_close_end(
                old(self).spec_request().close_end,
                true,
                close_end_ms,
            )),
            !old(self).spec_finished() ==> (match advance_step(old(self).spec_state(), opt_view(next_cursor), done).1 {
                Ok(Some(c)) => r is Ok && !final(self).spec_finished() && opt_string_view(
                    final(self).spec_request().cursor,
                ) == Some(c) && final(self).spec_request() == (RangeRequest {
                    cursor: final(self).spec_request().cursor,
                    close_end: final(self).spec_request().close_end,
                    ..old(self).spec_request()
                }),
                Ok(None) => r is Ok && final(self).spec_finished() && final(self).spec_request() == (RangeRequest {
                    close_end: final(self).spec_request().close_end,
                    ..old(self).spec_request()
                }),
                Err(_) => r matches Err(SdkError::ContractDrift { .. }) && !final(self).spec_finished()
                    && final(self).spec_request() == (RangeRequest {
                    close_end: final(self).spec_request().close_end,
                    ..old(self).spec_request()
                }),
            }),
            old(self).spec_finished() ==> (r is Ok && *final(self) == *old(self)),
            (final(self).spec_state(), final(self).spec_finished()) == pager_step(
                old(self).spec_state(),
                old(self).spec_finished(),
                (opt_view(next_cursor), done),
            ),
            !old(self).spec_finished() ==> (advance_step(old(self).spec_state(), opt_view(next_cursor), done).1 matches Ok(Some(c))
                ==> range_request_after(old(self).spec_request(), close_end_ms, c, final(self).spec_request())),
    {
        if self.finished {
            return Ok(());
        }
        if self.request.close_end.is_none() {
            self.request.close_end = Some(TimeInput::Ms(close_end_ms));
        }
        self.apply_advance(next_cursor, done)
    }

    fn apply_advance(&mut self, next_cursor: Option<&str>, done: bool) -> (r: Result<(), SdkError>)
        requires
            !old(self).spec_finished(),
        ensures
            final(self).spec_client() == old(self).spec_client(),
            final(self).spec_state() == advance_step(old(self).spec_state(), opt_view(next_cursor), done).0,
            match advance_step(old(self).spec_state(), opt_view(next_cursor), done).1 {
                Ok(Some(c)) => r is Ok && !final(self).spec_finished() && opt_string_view(
                    final(self).spec_request().cursor,
                ) == Some(c) && final(self).spec_request() == (RangeRequest {
                    cursor: final(self).spec_request().cursor,
                    ..old(self).spec_request()
                }),
                Ok(None) => r is Ok && final(self).spec_finished() && final(self).spec_request()
                    == old(self).spec_request(),
                Err(_) => r matches Err(SdkError::ContractDrift { .. }) && !final(self).spec_finished()
                    && final(self).spec_request() == old(self).spec_request(),
            },
    {
        match self.state.advance(next_cursor, done) {
            Ok(PaginationAdvance::Continue { cursor }) => {
                self.request.cursor = Some(cursor);
                Ok(())
            },
            Ok(PaginationAdvance::Finished) => {
                self.finished = true;
                Ok(())
            },
            Err(e) => Err(e),
        }
    }
}

/// A `RangeGrpcRequest` ready to be sent once or traversed.
#[derive(Debug)]
pub struct RangeGrpcCall<'a> {
    client: &'a Regime,
    request: RangeGrpcRequest,
}

/// Page-by-page traversal of a `RangeGrpcRequest`.
#[derive(Debug)]
pub struct RangeGrpcPager<'a> {
    client: &'a Regime,
    request: RangeGrpcRequest,
    state: PaginationState,
    finished: bool,
}

impl<'a> RangeGrpcCall<'a> {
    pub closed spec fn spec_request(&self) -> RangeGrpcRequest {
        self.request
    }

    pub closed spec fn spec_client(&self) -> &'a Regime {
        self.client
    }

    pub fn new(client: &'a Regime, request: RangeGrpcRequest) -> (r: Self)
        ensures
            r.spec_request() == request,
            r.spec_client() == client,
    {
        RangeGrpcCall { client, request }
    }

    /// The client the request goes to.
    pub fn client(&self) -> (r: &'a Regime)
        ensures
            r == self.spec_client(),
    {
        self.client
    }

    /// The request as it will be sent.
    pub fn request(&self) -> (r: &RangeGrpcRequest)
        ensures
            *r == self.spec_request(),
    {
        &self.request
    }

    /// A pager over the request's pages.
    pub fn pager(self) -> (r: Result<RangeGrpcPager<'a>, SdkError>)
        ensures
            r is Ok,
            r matches Ok(p) ==> p.spec_request() == self.spec_request() && !p.spec_finished()
                && p.spec_state() == (PaginationStateView {
                pages_fetched: 0,
                max_pages: DEFAULT_TRAVERSE_MAX_PAGES as nat,
                last_cursor: None,
            }) && p.spec_client() == self.spec_client(),
    {
        Ok(RangeGrpcPager::new(self.client, self.request))
    }
}

impl<'a> RangeGrpcPager<'a> {
    pub closed spec fn spec_request(&self) -> RangeGrpcRequest {
        self.request
    }

    pub closed spec fn spec_finished(&self) -> bool {
        self.finished
    }

    pub closed spec fn spec_state(&self) -> PaginationStateView {
        self.state@
    }

    pub closed spec fn spec_client(&self) -> &'a Regime {
        self.client
    }

    fn new(client: &'a Regime, request: RangeGrpcRequest) -> (r: Self)
        ensures
            r.spec_request() == request,
            !r.spec_finished(),
            r.spec_state() == (PaginationStateView {
                pages_fetched: 0,
                max_pages: DEFAULT_TRAVERSE_MAX_PAGES as nat,
                last_cursor: None,
            }),
            r.spec_client() == client,
    {
        RangeGrpcPager { client, request, state: PaginationState::new(), finished: false }
    }

    pub fn pages_fetched(&self) -> (r: usize)
        ensures
            r == self.spec_state().pages_fetched,
    {
        self.state.pages_fetched()
    }

    /// The client the pages come from.
    pub fn client(&self) -> (r: &'a Regime)
        ensures
            r == self.spec_client(),
    {
        self.client
    }

    /// The request for the next page, or `None` once the traversal has ended.
    pub fn pending_request(&self) -> (r: Option<&RangeGrpcRequest>)
        ensures
            self.spec_finished() ==> r is None,
            !self.spec_finished() ==> (r matches Some(q) && *q == self.spec_request()),
    {
        if self.finished {
            None
        } else {
            Some(&self.request)
        }
    }

    /// Takes in the page just fetched: its close end, next cursor and done
    /// flag. An omitted close end is frozen to the page's. The
    /// traversal goes on with the next cursor, ends when the page is done or
    /// has no cursor, and is refused when the budget is spent or the cursor
    /// repeats. Once the traversal has ended, a page changes nothing.
    pub fn record_page(&mut self, close_end_ms: i64, next_cursor: Option<&str>, done: bool) -> (r:
        Result<(), SdkError>)
        ensures
            !old(self).spec_finished() ==> (final(self).spec_client() == old(self).spec_client()),
            !old(self).spec_finished() ==> (final(self).spec_state() == advance_step(old(self).spec_state(), opt_view(next_cursor), done).0),
            !old(self).spec_finished() ==> (final(self).spec_request().close_end == frozen_close_end(
                old(self).spec_request().close_end,
                true,
                close_end_ms,
            )),
            !old(self).spec_finished() ==> (match advance_step(old(self).spec_state(), opt_view(next_cursor), done).1 {
                Ok(Some(c)) => r is Ok && !final(self).spec_finished() && opt_string_view(
                    final(self).spec_request().cursor,
                ) == Some(c) && final(self).spec_request() == (RangeGrpcRequest {
                    cursor: final(self).spec_request().cursor,
                    close_end: final(self).spec_request().close_end,
                    ..old(self).spec_request()
                }),
                Ok(None) => r is Ok && final(self).spec_finished() && final(self).spec_request() == (RangeGrpcRequest {
                    close_end: final(self).spec_request().close_end,
                    ..old(self).spec_request()
                }),
                Err(_) => r matches Err(SdkError::ContractDrift { .. }) && !final(self).spec_finished()
                    && final(self).spec_request() == (RangeGrpcRequest {
                    close_end: final(self).spec_request().close_end,
                    ..old(self).spec_request()
                }),
            }),
            old(self).spec_finished() ==> (r is Ok && *final(self) == *old(self)),
            (final(self).spec_state(), final(self).spec_finished()) == pager_step(
                old(self).spec_state(),
                old(self).spec_finished(),
                (opt_view(next_cursor), done),
            ),
            !old(self).spec_finished() ==> (advance_step(old(self).spec_state(), opt_view(next_cursor), done).1 matches Ok(Some(c))
                ==> range_grpc_request_after(old(self).spec_request(), close_end_ms, c, final(self).spec_request())),
    {
        if self.finished {
            return Ok(());
        }
        if self.request.close_end.is_none() {
            self.request.close_end = Some(TimeInput::Ms(close_end_ms));
        }
        self.apply_advance(next_cursor, done)
    }

    fn apply_advance(&mut self, next_cursor: Option<&str>, done: bool) -> (r: Result<(), SdkError>)
        requires
            !old(self).spec_finished(),
        ensures
            final(self).spec_client() == old(self).spec_client(),
            final(self).spec_state() == advance_step(old(self).spec_state(), opt_view(next_cursor), done).0,
            match advance_step(old(self).spec_state(), opt_view(next_cursor), done).1 {
                Ok(Some(c)) => r is Ok && !final(self).spec_finished() && opt_string_view(
                    final(self).spec_request().cursor,
                ) == Some(c) && final(self).spec_request() == (RangeGrpcRequest {
                    cursor: final(self).spec_request().cursor,
                    ..old(self).spec_request()
                }),
                Ok(None) => r is Ok && final(self).spec_finished() && final(self).spec_request()
                    == old(self).spec_request(),
                Err(_) => r matches Err(SdkError::ContractDrift { .. }) && !final(self).spec_finished()
                    && final(self).spec_request() == old(self).spec_request(),
            },
    {
        match self.state.advance(next_cursor, done) {
            Ok(PaginationAdvance::Continue { cursor }) => {
                self.request.cursor = Some(cursor);
                Ok(())
            },
            Ok(PaginationAdvance::Finished) => {
                self.finished = true;
                Ok(())
            },
            Err(e) => Err(e),
        }
    }
}

/// A `SearchRequest` ready to be sent once or traversed.
#[derive(Debug)]
pub struct SearchCall<'a> {
    client: &'a Regime,
    request: SearchRequest,
}

/// Page-by-page traversal of a `SearchRequest`.
#[derive(Debug)]
pub struct SearchPager<'a> {
    client: &'a Regime,
    request: SearchRequest,
    state: PaginationState,
    finished: bool,
}

impl<'a> SearchCall<'a> {
    pub closed spec fn spec_request(&self) -> SearchRequest {
        self.request
    }

    pub closed spec fn spec_client(&self) -> &'a Regime {
        self.client
    }

    pub fn new(client: &'a Regime, request: SearchRequest) -> (r: Self)
        ensures
            r.spec_request() == request,
            r.spec_client() == client,
    {
        SearchCall { client, request }
    }

    /// The client the request goes to.
    pub fn client(&self) -> (r: &'a Regime)
        ensures
            r == self.spec_client(),
    {
        self.client
    }

    /// The request as it will be sent.
    pub fn request(&self) -> (r: &SearchRequest)
        ensures
            *r == self.spec_request(),
    {
        &self.request
    }

    /// A pager over the request's pages.
    pub fn pager(self) -> (r: Result<SearchPager<'a>, SdkError>)
        ensures
            self.spec_request().close_end is Some <==> r is Ok,
            r is Err ==> (r matches Err(SdkError::UnsupportedOrUnprovedUsage { message })
                && message@ == "search"@ + " traversal requires explicit close_end"@),
            r matches Ok(p) ==> p.spec_request() == self.spec_request() && !p.spec_finished()
                && p.spec_state() == (PaginationStateView {
                pages_fetched: 0,
                max_pages: DEFAULT_TRAVERSE_MAX_PAGES as nat,
                last_cursor: None,
            }) && p.spec_client() == self.spec_client(),
    {
        require_explicit_close_end(self.request.close_end.as_ref(), "search")?;
        Ok(SearchPager::new(self.client, self.request))
    }
}

impl<'a> SearchPager<'a> {
    pub closed spec fn spec_request(&self) -> SearchRequest {
        self.request
    }

    pub closed spec fn spec_finished(&self) -> bool {
        self.finished
    }

    pub closed spec fn spec_state(&self) -> PaginationStateView {
        self.state@
    }

    pub closed spec fn spec_client(&self) -> &'a Regime {
        self.client
    }

    fn new(client: &'a Regime, request: SearchRequest) -> (r: Self)
        ensures
            r.spec_request() == request,
            !r.spec_finished(),
            r.spec_state() == (PaginationStateView {
                pages_fetched: 0,
                max_pages: DEFAULT_TRAVERSE_MAX_PAGES as nat,
                last_cursor: None,
            }),
            r.spec_client() == client,
    {
        SearchPager { client, request, state: PaginationState::new(), finished: false }
    }

    pub fn pages_fetched(&self) -> (r: usize)
        ensures
            r == self.spec_state().pages_fetched,
    {
        self.state.pages_fetched()
    }

    /// The client the pages come from.
    pub fn client(&self) -> (r: &'a Regime)
        ensures
            r == self.spec_client(),
    {
        self.client
    }

    /// The request for the next page, or `None` once the traversal has ended.
    pub fn pending_request(&self) -> (r: Option<&SearchRequest>)
        ensures
            self.spec_finished() ==> r is None,
            !self.spec_finished() ==> (r matches Some(q) && *q == self.spec_request()),
    {
        if self.finished {
            None
        } else {
            Some(&self.request)
        }
    }

    /// Takes in the page just fetched: its close end, next cursor and done
    /// flag. The traversal goes on with the next cursor, ends when the page is done or
    /// has no cursor, and is refused when the budget is spent or the cursor
    /// repeats. Once the traversal has ended, a page changes nothing.
    pub fn record_page(&mut self, close_end_ms: i64, next_cursor: Option<&str>, done: bool) -> (r:
        Result<(), SdkError>)
        ensures
            !old(self).spec_finished() ==> (final(self).spec_client() == old(self).spec_client()),
            !old(self).spec_finished() ==> (final(self).spec_state() == advance_step(old(self).spec_state(), opt_view(next_cursor), done).0),
            !old(self).spec_finished() ==> (final(self).spec_request().close_end == frozen_close_end(
                old(self).spec_request().close_end,
                false,
                close_end_ms,
            )),
            !old(self).spec_finished() ==> (match advance_step(old(self).spec_state(), opt_view(next_cursor), done).1 {
                Ok(Some(c)) => r is Ok && !final(self).spec_finished() && opt_string_view(
                    final(self).spec_request().cursor,
                ) == Some(c) && final(self).spec_request() == (SearchRequest {
                    cursor: final(self).spec_request().cursor,
                    close_end: final(self).spec_request().close_end,
                    ..old(self).spec_request()
                }),
                Ok(None) => r is Ok && final(self).spec_finished() && final(self).spec_request() == (SearchRequest {
                    close_end: final(self).spec_request().close_end,
                    ..old(self).spec_request()
                }),
                Err(_) => r matches Err(SdkError::ContractDrift { .. }) && !final(self).spec_finished()
                    && final(self).spec_request() == (SearchRequest {
                    close_end: final(self).spec_request().close_end,
                    ..old(self).spec_request()
                }),
            }),
            old(self).spec_finished() ==> (r is Ok && *final(self) == *old(self)),
            (final(self).spec_state(), final(self).spec_finished()) == pager_step(
                old(self).spec_state(),
                old(self).spec_finished(),
                (opt_view(next_cursor), done),
            ),
            !old(self).spec_finished() ==> (advance_step(old(self).spec_state(), opt_view(next_cursor), done).1 matches Ok(Some(c))
                ==> search_request_after(old(self).spec_request(), close_end_ms, c, final(self).spec_request())),
    {
        if self.finished {
            return Ok(());
        }
        self.apply_advance(next_cursor, done)
    }

    fn apply_advance(&mut self, next_cursor: Option<&str>, done: bool) -> (r: Result<(), SdkError>)
        requires
            !old(self).spec_finished(),
        ensures
            final(self).spec_client() == old(self).spec_client(),
            final(self).spec_state() == advance_step(old(self).spec_state(), opt_view(next_cursor), done).0,
            match advance_step(old(self).spec_state(), opt_view(next_cursor), done).1 {
                Ok(Some(c)) => r is Ok && !final(self).spec_finished() && opt_string_view(
                    final(self).spec_request().cursor,
                ) == Some(c) && final(self).spec_request() == (SearchRequest {
                    cursor: final(self).spec_request().cursor,
                    ..old(self).spec_request()
                }),
                Ok(None) => r is Ok && final(self).spec_finished() && final(self).spec_request()
                    == old(self).spec_request(),
                Err(_) => r matches Err(SdkError::ContractDrift { .. }) && !final(self).spec_finished()
                    && final(self).spec_request() == old(self).spec_request(),
            },
    {
        match self.state.advance(next_cursor, done) {
            Ok(PaginationAdvance::Continue { cursor }) => {
                self.request.cursor = Some(cursor);
                Ok(())
            },
            Ok(PaginationAdvance::Finished) => {
                self.finished = true;
                Ok(())
            },
            Err(e) => Err(e),
        }
    }
}

/// A `SearchGrpcRequest` ready to be sent once or traversed.
#[derive(Debug)]
pub struct SearchGrpcCall<'a> {
    client: &'a Regime,
    request: SearchGrpcRequest,
}

/// Page-by-page traversal of a `SearchGrpcRequest`.
#[derive(Debug)]
pub struct SearchGrpcPager<'a> {
    client: &'a Regime,
    request: SearchGrpcRequest,
    state: PaginationState,
    finished: bool,
}

impl<'a> SearchGrpcCall<'a> {
    pub closed spec fn spec_request(&self) -> SearchGrpcRequest {
        self.request
    }

    pub closed spec fn spec_client(&self) -> &'a Regime {
        self.client
    }

    pub fn new(client: &'a Regime, request: SearchGrpcRequest) -> (r: Self)
        ensures
            r.spec_request() == request,
            r.spec_client() == client,
    {
        SearchGrpcCall { client, request }
    }

    /// The client the request goes to.
    pub fn client(&self) -> (r: &'a Regime)
        ensures
            r == self.spec_client(),
    {
        self.client
    }

    /// The request as it will be sent.
    pub fn request(&self) -> (r: &SearchGrpcRequest)
        ensures
            *r == self.spec_request(),
    {
        &self.request
    }

    /// A pager over the request's pages.
    pub fn pager(self) -> (r: Result<SearchGrpcPager<'a>, SdkError>)
        ensures
            self.spec_request().close_end is Some <==> r is Ok,
            r is Err ==> (r matches Err(SdkError::UnsupportedOrUnprovedUsage { message })
                && message@ == "search"@ + " traversal requires explicit close_end"@),
            r matches Ok(p) ==> p.spec_request() == self.spec_request() && !p.spec_finished()
                && p.spec_state() == (PaginationStateView {
                pages_fetched: 0,
                max_pages: DEFAULT_TRAVERSE_MAX_PAGES as nat,
                last_cursor: None,
            }) && p.spec_client() == self.spec_client(),
    {
        require_explicit_close_end(self.request.close_end.as_ref(), "search")?;
        Ok(SearchGrpcPager::new(self.client, self.request))
    }
}

impl<'a> SearchGrpcPager<'a> {
    pub closed spec fn spec_request(&self) -> SearchGrpcRequest {
        self.request
    }

    pub closed spec fn spec_finished(&self) -> bool {
        self.finished
    }

    pub closed spec fn spec_state(&self) -> PaginationStateView {
        self.state@
    }

    pub closed spec fn spec_client(&self) -> &'a Regime {
        self.client
    }

    fn new(client: &'a Regime, request: SearchGrpcRequest) -> (r: Self)
        ensures
            r.spec_request() == request,
            !r.spec_finished(),
            r.spec_state() == (PaginationStateView {
                pages_fetched: 0,
                max_pages: DEFAULT_TRAVERSE_MAX_PAGES as nat,
                last_cursor: None,
            }),
            r.spec_client() == client,
    {
        SearchGrpcPager { client, request, state: PaginationState::new(), finished: false }
    }

    pub fn pages_fetched(&self) -> (r: usize)
        ensures
            r == self.spec_state().pages_fetched,
    {
        self.state.pages_fetched()
    }

    /// The client the pages come from.
    pub fn client(&self) -> (r: &'a Regime)
        ensures
            r == self.spec_client(),
    {
        self.client
    }

    /// The request for the next page, or `None` once the traversal has ended.
    pub fn pending_request(&self) -> (r: Option<&SearchGrpcRequest>)
        ensures
            self.spec_finished() ==> r is None,
            !self.spec_finished() ==> (r matches Some(q) && *q == self.spec_request()),
    {
        if self.finished {
            None
        } else {
            Some(&self.request)
        }
    }

    /// Takes in the page just fetched: its close end, next cursor and done
    /// flag. The traversal goes on with the next cursor, ends when the page is done or
    /// has no cursor, and is refused when the budget is spent or the cursor
    /// repeats. Once the traversal has ended, a page changes nothing.
    pub fn record_page(&mut self, close_end_ms: i64, next_cursor: Option<&str>, done: bool) -> (r:
        Result<(), SdkError>)
        ensures
            !old(self).spec_finished() ==> (final(self).spec_client() == old(self).spec_client()),
            !old(self).spec_finished() ==> (final(self).spec_state() == advance_step(old(self).spec_state(), opt_view(next_cursor), done).0),
            !old(self).spec_finished() ==> (final(self).spec_request().close_end == frozen_close_end(
                old(self).spec_request().close_end,
                false,
                close_end_ms,
            )),
            !old(self).spec_finished() ==> (match advance_step(old(self).spec_state(), opt_view(next_cursor), done).1 {
                Ok(Some(c)) => r is Ok && !final(self).spec_finished() && opt_string_view(
                    final(self).spec_request().cursor,
                ) == Some(c) && final(self).spec_request() == (SearchGrpcRequest {
                    cursor: final(self).spec_request().cursor,
                    close_end: final(self).spec_request().close_end,
                    ..old(self).spec_request()
                }),
                Ok(None) => r is Ok && final(self).spec_finished() && final(self).spec_request() == (SearchGrpcRequest {
                    close_end: final(self).spec_request().close_end,
                    ..old(self).spec_request()
                }),
                Err(_) => r matches Err(SdkError::ContractDrift { .. }) && !final(self).spec_finished()
                    && final(self).spec_request() == (SearchGrpcRequest {
                    close_end: final(self).spec_request().close_end,
                    ..old(self).spec_request()
                }),
            }),
            old(self).spec_finished() ==> (r is Ok && *final(self) == *old(self)),
            (final(self).spec_state(), final(self).spec_finished()) == pager_step(
                old(self).spec_state(),
                old(self).spec_finished(),
                (opt_view(next_cursor), done),
            ),
            !old(self).spec_finished() ==> (advance_step(old(self).spec_state(), opt_view(next_cursor), done).1 matches Ok(Some(c))
                ==> search_grpc_request_after(old(self).spec_request(), close_end_ms, c, final(self).spec_request())),
    {
        if self.finished {
            return Ok(());
        }
        self.apply_advance(next_cursor, done)
    }

    fn apply_advance(&mut self, next_cursor: Option<&str>, done: bool) -> (r: Result<(), SdkError>)
        requires
            !old(self).spec_finished(),
        ensures
            final(self).spec_client() == old(self).spec_client(),
            final(self).spec_state() == advance_step(old(self).spec_state(), opt_view(next_cursor), done).0,
            match advance_step(old(self).spec_state(), opt_view(next_cursor), done).1 {
                Ok(Some(c)) => r is Ok && !final(self).spec_finished() && opt_string_view(
                    final(self).spec_request().cursor,
                ) == Some(c) && final(self).spec_request() == (SearchGrpcRequest {
                    cursor: final(self).spec_request().cursor,
                    ..old(self).spec_request()
                }),
                Ok(None) => r is Ok && final(self).spec_finished() && final(self).spec_request()
                    == old(self).spec_request(),
                Err(_) => r matches Err(SdkError::ContractDrift { .. }) && !final(self).spec_finished()
                    && final(self).spec_request() == old(self).spec_request(),
            },
    {
        match self.state.advance(next_cursor, done) {
            Ok(PaginationAdvance::Continue { cursor }) => {
                self.request.cursor = Some(cursor);
                Ok(())
            },
            Ok(PaginationAdvance::Finished) => {
                self.finished = true;
                Ok(())
            },
            Err(e) => Err(e),
        }
    }
}

/// A `TimeMachineRequest` ready to be sent once or traversed.
#[derive(Debug)]
pub struct TimeMachineCall<'a> {
    client: &'a Regime,
    request: TimeMachineRequest,
}

/// Page-by-page traversal of a `TimeMachineRequest`.
#[derive(Debug)]
pub struct TimeMachinePager<'a> {
    client: &'a Regime,
    request: TimeMachineRequest,
    state: PaginationState,
    finished: bool,
}

impl<'a> TimeMachineCall<'a> {
    pub closed spec fn spec_request(&self) -> TimeMachineRequest {
        self.request
    }

    pub closed spec fn spec_client(&self) -> &'a Regime {
        self.client
    }

    pub fn new(client: &'a Regime, request: TimeMachineRequest) -> (r: Self)
        ensures
            r.spec_request() == request,
            r.spec_client() == client,
    {
        TimeMachineCall { client, request }
    }

    /// The client the request goes to.
    pub fn client(&self) -> (r: &'a Regime)
        ensures
            r == self.spec_client(),
    {
        self.client
    }

    /// The request as it will be sent.
    pub fn request(&self) -> (r: &TimeMachineRequest)
        ensures
            *r == self.spec_request(),
    {
        &self.request
    }

    /// A pager over the request's pages.
    pub fn pager(self) -> (r: Result<TimeMachinePager<'a>, SdkError>)
        ensures
            self.spec_request().close_end is Some <==> r is Ok,
            r is Err ==> (r matches Err(SdkError::UnsupportedOrUnprovedUsage { message })
                && message@ == "time-machine"@ + " traversal requires explicit close_end"@),
            r matches Ok(p) ==> p.spec_request() == self.spec_request() && !p.spec_finished()
                && p.spec_state() == (PaginationStateView {
                pages_fetched: 0,
                max_pages: DEFAULT_TRAVERSE_MAX_PAGES as nat,
                last_cursor: None,
            }) && p.spec_client() == self.spec_client(),
    {
        require_explicit_close_end(self.request.close_end.as_ref(), "time-machine")?;
        Ok(TimeMachinePager::new(self.client, self.request))
    }
}

impl<'a> TimeMachinePager<'a> {
    pub closed spec fn spec_request(&self) -> TimeMachineRequest {
        self.request
    }

    pub closed spec fn spec_finished(&self) -> bool {
        self.finished
    }

    pub closed spec fn spec_state(&self) -> PaginationStateView {
        self.state@
    }

    pub closed spec fn spec_client(&self) -> &'a Regime {
        self.client
    }

    fn new(client: &'a Regime, request: TimeMachineRequest) -> (r: Self)
        ensures
            r.spec_request() == request,
            !r.spec_finished(),
            r.spec_state() == (PaginationStateView {
                pages_fetched: 0,
                max_pages: DEFAULT_TRAVERSE_MAX_PAGES as nat,
                last_cursor: None,
            }),
            r.spec_client() == client,
    {
        TimeMachinePager { client, request, state: PaginationState::new(), finished: false }
    }

    pub fn pages_fetched(&self) -> (r: usize)
        ensures
            r == self.spec_state().pages_fetched,
    {
        self.state.pages_fetched()
    }

    /// The client the pages come from.
    pub fn client(&self) -> (r: &'a Regime)
        ensures
            r == self.spec_client(),
    {
        self.client
    }

    /// The request for the next page, or `None` once the traversal has ended.
    pub fn pending_request(&self) -> (r: Option<&TimeMachineRequest>)
        ensures
            self.spec_finished() ==> r is None,
            !self.spec_finished() ==> (r matches Some(q) && *q == self.spec_request()),
    {
        if self.finished {
            None
        } else {
            Some(&self.request)
        }
    }

    /// Takes in the page just fetched: its close end, next cursor and done
    /// flag. The traversal goes on with the next cursor, ends when the page is done or
    /// has no cursor, and is refused when the budget is spent or the cursor
    /// repeats. Once the traversal has ended, a page changes nothing.
    pub fn record_page(&mut self, close_end_ms: i64, next_cursor: Option<&str>, done: bool) -> (r:
        Result<(), SdkError>)
        ensures
            !old(self).spec_finished() ==> (final(self).spec_client() == old(self).spec_client()),
            !old(self).spec_finished() ==> (final(self).spec_state() == advance_step(old(self).spec_state(), opt_view(next_cursor), done).0),
            !old(self).spec_finished() ==> (final(self).spec_request().close_end == frozen_close_end(
                old(self).spec_request().close_end,
                false,
                close_end_ms,
            )),
            !old(self).spec_finished() ==> (match advance_step(old(self).spec_state(), opt_view(next_cursor), done).1 {
                Ok(Some(c)) => r is Ok && !final(self).spec_finished() && opt_string_view(
                    final(self).spec_request().cursor,
                ) == Some(c) && final(self).spec_request() == (TimeMachineRequest {
                    cursor: final(self).spec_request().cursor,
                    close_end: final(self).spec_request().close_end,
                    ..old(self).spec_request()
                }),
                Ok(None) => r is Ok && final(self).spec_finished() && final(self).spec_request() == (TimeMachineRequest {
                    close_end: final(self).spec_request().close_end,
                    ..old(self).spec_request()
                }),
                Err(_) => r matches Err(SdkError::ContractDrift { .. }) && !final(self).spec_finished()
                    && final(self).spec_request() == (TimeMachineRequest {
                    close_end: final(self).spec_request().close_end,
                    ..old(self).spec_request()
                }),
            }),
            old(self).spec_finished() ==> (r is Ok && *final(self) == *old(self)),
            (final(self).spec_state(), final(self).spec_finished()) == pager_step(
                old(self).spec_state(),
                old(self).spec_finished(),
                (opt_view(next_cursor), done),
            ),
            !old(self).spec_finished() ==> (advance_step(old(self).spec_state(), opt_view(next_cursor), done).1 matches Ok(Some(c))
                ==> time_machine_request_after(old(self).spec_request(), close_end_ms, c, final(self).spec_request())),
    {
        if self.finished {
            return Ok(());
        }
        self.apply_advance(next_cursor, done)
    }

    fn apply_advance(&mut self, next_cursor: Option<&str>, done: bool) -> (r: Result<(), SdkError>)
        requires
            !old(self).spec_finished(),
        ensures
            final(self).spec_client() == old(self).spec_client(),
            final(self).spec_state() == advance_step(old(self).spec_state(), opt_view(next_cursor), done).0,
            match advance_step(old(self).spec_state(), opt_view(next_cursor), done).1 {
                Ok(Some(c)) => r is Ok && !final(self).spec_finished() && opt_string_view(
                    final(self).spec_request().cursor,
                ) == Some(c) && final(self).spec_request() == (TimeMachineRequest {
                    cursor: final(self).spec_request().cursor,
                    ..old(self).spec_request()
                }),
                Ok(None) => r is Ok && final(self).spec_finished() && final(self).spec_request()
                    == old(self).spec_request(),
                Err(_) => r matches Err(SdkError::ContractDrift { .. }) && !final(self).spec_finished()
                    && final(self).spec_request() == old(self).spec_request(),
            },
    {
        match self.state.advance(next_cursor, done) {
            Ok(PaginationAdvance::Continue { cursor }) => {
                self.request.cursor = Some(cursor);
                Ok(())
            },
            Ok(PaginationAdvance::Finished) => {
                self.finished = true;
                Ok(())
            },
            Err(e) => Err(e),
        }
    }
}

/// A `TimeMachineGrpcRequest` ready to be sent once or traversed.
#[derive(Debug)]
pub struct TimeMachineGrpcCall<'a> {
    client: &'a Regime,
    request: TimeMachineGrpcRequest,
}

/// Page-by-page traversal of a `TimeMachineGrpcRequest`.
#[derive(Debug)]
pub struct TimeMachineGrpcPager<'a> {
    client: &'a Regime,
    request: TimeMachineGrpcRequest,
    state: PaginationState,
    finished: bool,
}

impl<'a> TimeMachineGrpcCall<'a> {
    pub closed spec fn spec_request(&self) -> TimeMachineGrpcRequest {
        self.request
    }

    pub closed spec fn spec_client(&self) -> &'a Regime {
        self.client
    }

    pub fn new(client: &'a Regime, request: TimeMachineGrpcRequest) -> (r: Self)
        ensures
            r.spec_request() == request,
            r.spec_client() == client,
    {
        TimeMachineGrpcCall { client, request }
    }

    /// The client the request goes to.
    pub fn client(&self) -> (r: &'a Regime)
        ensures
            r == self.spec_client(),
    {
        self.client
    }

    /// The request as it will be sent.
    pub fn request(&self) -> (r: &TimeMachineGrpcRequest)
        ensures
            *r == self.spec_request(),
    {
        &self.request
    }

    /// A pager over the request's pages.
    pub fn pager(self) -> (r: Result<TimeMachineGrpcPager<'a>, SdkError>)
        ensures
            self.spec_request().close_end is Some <==> r is Ok,
            r is Err ==> (r matches Err(SdkError::UnsupportedOrUnprovedUsage { message })
                && message@ == "time-machine"@ + " traversal requires explicit close_end"@),
            r matches Ok(p) ==> p.spec_request() == self.spec_request() && !p.spec_finished()
                && p.spec_state() == (PaginationStateView {
                pages_fetched: 0,
                max_pages: DEFAULT_TRAVERSE_MAX_PAGES as nat,
                last_cursor: None,
            }) && p.spec_client() == self.spec_client(),
    {
        require_explicit_close_end(self.request.close_end.as_ref(), "time-machine")?;
        Ok(TimeMachineGrpcPager::new(self.client, self.request))
    }
}

impl<'a> TimeMachineGrpcPager<'a> {
    pub closed spec fn spec_request(&self) -> TimeMachineGrpcRequest {
        self.request
    }

    pub closed spec fn spec_finished(&self) -> bool {
        self.finished
    }

    pub closed spec fn spec_state(&self) -> PaginationStateView {
        self.state@
    }

    pub closed spec fn spec_client(&self) -> &'a Regime {
        self.client
    }

    fn new(client: &'a Regime, request: TimeMachineGrpcRequest) -> (r: Self)
        ensures
            r.spec_request() == request,
            !r.spec_finished(),
            r.spec_state() == (PaginationStateView {
                pages_fetched: 0,
                max_pages: DEFAULT_TRAVERSE_MAX_PAGES as nat,
                last_cursor: None,
            }),
            r.spec_client() == client,
    {
        TimeMachineGrpcPager { client, request, state: PaginationState::new(), finished: false }
    }

    pub fn pages_fetched(&self) -> (r: usize)
        ensures
            r == self.spec_state().pages_fetched,
    {
        self.state.pages_fetched()
    }

    /// The client the pages come from.
    pub fn client(&self) -> (r: &'a Regime)
        ensures
            r == self.spec_client(),
    {
        self.client
    }

    /// The request for the next page, or `None` once the traversal has ended.
    pub fn pending_request(&self) -> (r: Option<&TimeMachineGrpcRequest>)
        ensures
            self.spec_finished() ==> r is None,
            !self.spec_finished() ==> (r matches Some(q) && *q == self.spec_request()),
    {
        if self.finished {
            None
        } else {
            Some(&self.request)
        }
    }

    /// Takes in the page just fetched: its close end, next cursor and done
    /// flag. The traversal goes on with the next cursor, ends when the page is done or
    /// has no cursor, and is refused when the budget is spent or the cursor
    /// repeats. Once the traversal has ended, a page changes nothing.
    pub fn record_page(&mut self, close_end_ms: i64, next_cursor: Option<&str>, done: bool) -> (r:
        Result<(), SdkError>)
        ensures
            !old(self).spec_finished() ==> (final(self).spec_client() == old(self).spec_client()),
            !old(self).spec_finished() ==> (final(self).spec_state() == advance_step(old(self).spec_state(), opt_view(next_cursor), done).0),
            !old(self).spec_finished() ==> (final(self).spec_request().close_end == frozen_close_end(
                old(self).spec_request().close_end,
                false,
                close_end_ms,
            )),
            !old(self).spec_finished() ==> (match advance_step(old(self).spec_state(), opt_view(next_cursor), done).1 {
                Ok(Some(c)) => r is Ok && !final(self).spec_finished() && opt_string_view(
                    final(self).spec_request().cursor,
                ) == Some(c) && final(self).spec_request() == (TimeMachineGrpcRequest {
                    cursor: final(self).spec_request().cursor,
                    close_end: final(self).spec_request().close_end,
                    ..old(self).spec_request()
                }),
                Ok(None) => r is Ok && final(self).spec_finished() && final(self).spec_request() == (TimeMachineGrpcRequest {
                    close_end: final(self).spec_request().close_end,
                    ..old(self).spec_request()
                }),
                Err(_) => r matches Err(SdkError::ContractDrift { .. }) && !final(self).spec_finished()
                    && final(self).spec_request() == (TimeMachineGrpcRequest {
                    close_end: final(self).spec_request().close_end,
                    ..old(self).spec_request()
                }),
            }),
            old(self).spec_finished() ==> (r is Ok && *final(self) == *old(self)),
            (final(self).spec_state(), final(self).spec_finished()) == pager_step(
                old(self).spec_state(),
                old(self).spec_finished(),
                (opt_view(next_cursor), done),
            ),
            !old(self).spec_finished() ==> (advance_step(old(self).spec_state(), opt_view(next_cursor), done).1 matches Ok(Some(c))
                ==> time_machine_grpc_request_after(old(self).spec_request(), close_end_ms, c, final(self).spec_request())),
    {
        if self.finished {
            return Ok(());
        }
        self.apply_advance(next_cursor, done)
    }

    fn apply_advance(&mut self, next_cursor: Option<&str>, done: bool) -> (r: Result<(), SdkError>)
        requires
            !old(self).spec_finished(),
        ensures
            final(self).spec_client() == old(self).spec_client(),
            final(self).spec_state() == advance_step(old(self).spec_state(), opt_view(next_cursor), done).0,
            match advance_step(old(self).spec_state(), opt_view(next_cursor), done).1 {
                Ok(Some(c)) => r is Ok && !final(self).spec_finished() && opt_string_view(
                    final(self).spec_request().cursor,
                ) == Some(c) && final(self).spec_request() == (TimeMachineGrpcRequest {
                    cursor: final(self).spec_request().cursor,
                    ..old(self).spec_request()
                }),
                Ok(None) => r is Ok && final(self).spec_finished() && final(self).spec_request()
                    == old(self).spec_request(),
                Err(_) => r matches Err(SdkError::ContractDrift { .. }) && !final(self).spec_finished()
                    && final(self).spec_request() == old(self).spec_request(),
            },
    {
        match self.state.advance(next_cursor, done) {
            Ok(PaginationAdvance::Continue { cursor }) => {
                self.request.cursor = Some(cursor);
                Ok(())
            },
            Ok(PaginationAdvance::Finished) => {
                self.finished = true;
                Ok(())
            },
            Err(e) => Err(e),
        }
    }
}

/// How a traversal's `RangeRequest` moves on after a page that hands out cursor
/// `c`: the cursor is `c`, an omitted end is frozen to the page's, and every other
/// field stays.
pub open spec fn range_request_after(q: RangeRequest, close_end_ms: i64, c: Seq<char>, q2: RangeRequest) -> bool {
    &&& opt_string_view(q2.cursor) == Some(c)
    &&& q2 == (RangeRequest { cursor: q2.cursor, close_end: frozen_close_end(q.close_end, true, close_end_ms), ..q })
}

proof fn lemma_range_request_at(qs: Seq<RangeRequest>, pages: Seq<(i64, Seq<char>)>, i: int)
    requires
        qs.len() == pages.len() + 1,
        forall|j: int| 0 <= j < pages.len() ==> range_request_after(#[trigger] qs[j], pages[j].0, pages[j].1, qs[j + 1]),
        1 <= i < qs.len(),
    ensures
        opt_string_view(qs[i].cursor) == Some(pages[i - 1].1),
        qs[i].close_end == frozen_close_end(qs[0].close_end, true, pages[0].0),
        qs[i] == (RangeRequest { cursor: qs[i].cursor, close_end: qs[i].close_end, ..qs[0] }),
    decreases i,
{
    assert(range_request_after(qs[i - 1], pages[i - 1].0, pages[i - 1].1, qs[i]));
    if i > 1 {
        lemma_range_request_at(qs, pages, i - 1);
    }
}

/// The requests a `RangeRequest` traversal sends: after the first, each carries the
/// previous page's cursor and the end frozen to the first page's when it was omitted; every other field is the
/// first request's.
pub proof fn law_range_traversal_requests(qs: Seq<RangeRequest>, pages: Seq<(i64, Seq<char>)>)
    requires
        qs.len() == pages.len() + 1,
        forall|j: int| 0 <= j < pages.len() ==> range_request_after(#[trigger] qs[j], pages[j].0, pages[j].1, qs[j + 1]),
    ensures
        forall|i: int|
            1 <= i < qs.len() ==> opt_string_view(#[trigger] qs[i].cursor) == Some(pages[i - 1].1)
                && qs[i].close_end == frozen_close_end(qs[0].close_end, true, pages[0].0)
                && qs[i] == (RangeRequest { cursor: qs[i].cursor, close_end: qs[i].close_end, ..qs[0] }),
{
    assert forall|i: int| 1 <= i < qs.len() implies opt_string_view(#[trigger] qs[i].cursor) == Some(pages[i - 1].1)
        && qs[i].close_end == frozen_close_end(qs[0].close_end, true, pages[0].0)
        && qs[i] == (RangeRequest { cursor: qs[i].cursor, close_end: qs[i].close_end, ..qs[0] }) by {
        lemma_range_request_at(qs, pages, i);
    }
}

/// How a traversal's `RangeGrpcRequest` moves on after a page that hands out cursor
/// `c`: the cursor is `c`, an omitted end is frozen to the page's, and every other
/// field stays.
pub open spec fn range_grpc_request_after(q: RangeGrpcRequest, close_end_ms: i64, c: Seq<char>, q2: RangeGrpcRequest) -> bool {
    &&& opt_string_view(q2.cursor) == Some(c)
    &&& q2 == (RangeGrpcRequest { cursor: q2.cursor, close_end: frozen_close_end(q.close_end, true, close_end_ms), ..q })
}

proof fn lemma_range_grpc_request_at(qs: Seq<RangeGrpcRequest>, pages: Seq<(i64, Seq<char>)>, i: int)
    requires
        qs.len() == pages.len() + 1,
        forall|j: int| 0 <= j < pages.len() ==> range_grpc_request_after(#[trigger] qs[j], pages[j].0, pages[j].1, qs[j + 1]),
        1 <= i < qs.len(),
    ensures
        opt_string_view(qs[i].cursor) == Some(pages[i - 1].1),
        qs[i].close_end == frozen_close_end(qs[0].close_end, true, pages[0].0),
        qs[i] == (RangeGrpcRequest { cursor: qs[i].cursor, close_end: qs[i].close_end, ..qs[0] }),
    decreases i,
{
    assert(range_grpc_request_after(qs[i - 1], pages[i - 1].0, pages[i - 1].1, qs[i]));
    if i > 1 {
        lemma_range_grpc_request_at(qs, pages, i - 1);
    }
}

/// The requests a `RangeGrpcRequest` traversal sends: after the first, each carries the
/// previous page's cursor and the end frozen to the first page's when it was omitted; every other field is the
/// first request's.
pub proof fn law_range_grpc_traversal_requests(qs: Seq<RangeGrpcRequest>, pages: Seq<(i64, Seq<char>)>)
    requires
        qs.len() == pages.len() + 1,
        forall|j: int| 0 <= j < pages.len() ==> range_grpc_request_after(#[trigger] qs[j], pages[j].0, pages[j].1, qs[j + 1]),
    ensures
        forall|i: int|
            1 <= i < qs.len() ==> opt_string_view(#[trigger] qs[i].cursor) == Some(pages[i - 1].1)
                && qs[i].close_end == frozen_close_end(qs[0].close_end, true, pages[0].0)
                && qs[i] == (RangeGrpcRequest { cursor: qs[i].cursor, close_end: qs[i].close_end, ..qs[0] }),
{
    assert forall|i: int| 1 <= i < qs.len() implies opt_string_view(#[trigger] qs[i].cursor) == Some(pages[i - 1].1)
        && qs[i].close_end == frozen_close_end(qs[0].close_end, true, pages[0].0)
        && qs[i] == (RangeGrpcRequest { cursor: qs[i].cursor, close_end: qs[i].close_end, ..qs[0] }) by {
        lemma_range_grpc_request_at(qs, pages, i);
    }
}

/// How a traversal's `SearchRequest` moves on after a page that hands out cursor
/// `c`: the cursor is `c`, an omitted end is left as it is, and every other
/// field stays.
pub open spec fn search_request_after(q: SearchRequest, close_end_ms: i64, c: Seq<char>, q2: SearchRequest) -> bool {
    &&& opt_string_view(q2.cursor) == Some(c)
    &&& q2 == (SearchRequest { cursor: q2.cursor, close_end: frozen_close_end(q.close_end, false, close_end_ms), ..q })
}

proof fn lemma_search_request_at(qs: Seq<SearchRequest>, pages: Seq<(i64, Seq<char>)>, i: int)
    requires
        qs.len() == pages.len() + 1,
        forall|j: int| 0 <= j < pages.len() ==> search_request_after(#[trigger] qs[j], pages[j].0, pages[j].1, qs[j + 1]),
        1 <= i < qs.len(),
    ensures
        opt_string_view(qs[i].cursor) == Some(pages[i - 1].1),
        qs[i].close_end == frozen_close_end(qs[0].close_end, false, pages[0].0),
        qs[i] == (SearchRequest { cursor: qs[i].cursor, close_end: qs[i].close_end, ..qs[0] }),
    decreases i,
{
    assert(search_request_after(qs[i - 1], pages[i - 1].0, pages[i - 1].1, qs[i]));
    if i > 1 {
        lemma_search_request_at(qs, pages, i - 1);
    }
}

/// The requests a `SearchRequest` traversal sends: after the first, each carries the
/// previous page's cursor and the end of the first request; every other field is the
/// first request's.
pub proof fn law_search_traversal_requests(qs: Seq<SearchRequest>, pages: Seq<(i64, Seq<char>)>)
    requires
        qs.len() == pages.len() + 1,
        forall|j: int| 0 <= j < pages.len() ==> search_request_after(#[trigger] qs[j], pages[j].0, pages[j].1, qs[j + 1]),
    ensures
        forall|i: int|
            1 <= i < qs.len() ==> opt_string_view(#[trigger] qs[i].cursor) == Some(pages[i - 1].1)
                && qs[i].close_end == frozen_close_end(qs[0].close_end, false, pages[0].0)
                && qs[i] == (SearchRequest { cursor: qs[i].cursor, close_end: qs[i].close_end, ..qs[0] }),
{
    assert forall|i: int| 1 <= i < qs.len() implies opt_string_view(#[trigger] qs[i].cursor) == Some(pages[i - 1].1)
        && qs[i].close_end == frozen_close_end(qs[0].close_end, false, pages[0].0)
        && qs[i] == (SearchRequest { cursor: qs[i].cursor, close_end: qs[i].close_end, ..qs[0] }) by {
        lemma_search_request_at(qs, pages, i);
    }
}

/// How a traversal's `SearchGrpcRequest` moves on after a page that hands out cursor
/// `c`: the cursor is `c`, an omitted end is left as it is, and every other
/// field stays.
pub open spec fn search_grpc_request_after(q: SearchGrpcRequest, close_end_ms: i64, c: Seq<char>, q2: SearchGrpcRequest) -> bool {
    &&& opt_string_view(q2.cursor) == Some(c)
    &&& q2 == (SearchGrpcRequest { cursor: q2.cursor, close_end: frozen_close_end(q.close_end, false, close_end_ms), ..q })
}

proof fn lemma_search_grpc_request_at(qs: Seq<SearchGrpcRequest>, pages: Seq<(i64, Seq<char>)>, i: int)
    requires
        qs.len() == pages.len() + 1,
        forall|j: int| 0 <= j < pages.len() ==> search_grpc_request_after(#[trigger] qs[j], pages[j].0, pages[j].1, qs[j + 1]),
        1 <= i < qs.len(),
    ensures
        opt_string_view(qs[i].cursor) == Some(pages[i - 1].1),
        qs[i].close_end == frozen_close_end(qs[0].close_end, false, pages[0].0),
        qs[i] == (SearchGrpcRequest { cursor: qs[i].cursor, close_end: qs[i].close_end, ..qs[0] }),
    decreases i,
{
    assert(search_grpc_request_after(qs[i - 1], pages[i - 1].0, pages[i - 1].1, qs[i]));
    if i > 1 {
        lemma_search_grpc_request_at(qs, pages, i - 1);
    }
}

/// The requests a `SearchGrpcRequest` traversal sends: after the first, each carries the
/// previous page's cursor and the end of the first request; every other field is the
/// first request's.
pub proof fn law_search_grpc_traversal_requests(qs: Seq<SearchGrpcRequest>, pages: Seq<(i64, Seq<char>)>)
    requires
        qs.len() == pages.len() + 1,
        forall|j: int| 0 <= j < pages.len() ==> search_grpc_request_after(#[trigger] qs[j], pages[j].0, pages[j].1, qs[j + 1]),
    ensures
        forall|i: int|
            1 <= i < qs.len() ==> opt_string_view(#[trigger] qs[i].cursor) == Some(pages[i - 1].1)
                && qs[i].close_end == frozen_close_end(qs[0].close_end, false, pages[0].0)
                && qs[i] == (SearchGrpcRequest { cursor: qs[i].cursor, close_end: qs[i].close_end, ..qs[0] }),
{
    assert forall|i: int| 1 <= i < qs.len() implies opt_string_view(#[trigger] qs[i].cursor) == Some(pages[i - 1].1)
        && qs[i].close_end == frozen_close_end(qs[0].close_end, false, pages[0].0)
        && qs[i] == (SearchGrpcRequest { cursor: qs[i].cursor, close_end: qs[i].close_end, ..qs[0] }) by {
        lemma_search_grpc_request_at(qs, pages, i);
    }
}

/// How a traversal's `TimeMachineRequest` moves on after a page that hands out cursor
/// `c`: the cursor is `c`, an omitted end is left as it is, and every other
/// field stays.
pub open spec fn time_machine_request_after(q: TimeMachineRequest, close_end_ms: i64, c: Seq<char>, q2: TimeMachineRequest) -> bool {
    &&& opt_string_view(q2.cursor) == Some(c)
    &&& q2 == (TimeMachineRequest { cursor: q2.cursor, close_end: frozen_close_end(q.close_end, false, close_end_ms), ..q })
}

proof fn lemma_time_machine_request_at(qs: Seq<TimeMachineRequest>, pages: Seq<(i64, Seq<char>)>, i: int)
    requires
        qs.len() == pages.len() + 1,
        forall|j: int| 0 <= j < pages.len() ==> time_machine_request_after(#[trigger] qs[j], pages[j].0, pages[j].1, qs[j + 1]),
        1 <= i < qs.len(),
    ensures
        opt_string_view(qs[i].cursor) == Some(pages[i - 1].1),
        qs[i].close_end == frozen_close_end(qs[0].close_end, false, pages[0].0),
        qs[i] == (TimeMachineRequest { cursor: qs[i].cursor, close_end: qs[i].close_end, ..qs[0] }),
    decreases i,
{
    assert(time_machine_request_after(qs[i - 1], pages[i - 1].0, pages[i - 1].1, qs[i]));
    if i > 1 {
        lemma_time_machine_request_at(qs, pages, i - 1);
    }
}

/// The requests a `TimeMachineRequest` traversal sends: after the first, each carries the
/// previous page's cursor and the end of the first request; every other field is the
/// first request's.
pub proof fn law_time_machine_traversal_requests(qs: Seq<TimeMachineRequest>, pages: Seq<(i64, Seq<char>)>)
    requires
        qs.len() == pages.len() + 1,
        forall|j: int| 0 <= j < pages.len() ==> time_machine_request_after(#[trigger] qs[j], pages[j].0, pages[j].1, qs[j + 1]),
    ensures
        forall|i: int|
            1 <= i < qs.len() ==> opt_string_view(#[trigger] qs[i].cursor) == Some(pages[i - 1].1)
                && qs[i].close_end == frozen_close_end(qs[0].close_end, false, pages[0].0)
                && qs[i] == (TimeMachineRequest { cursor: qs[i].cursor, close_end: qs[i].close_end, ..qs[0] }),
{
    assert forall|i: int| 1 <= i < qs.len() implies opt_string_view(#[trigger] qs[i].cursor) == Some(pages[i - 1].1)
        && qs[i].close_end == frozen_close_end(qs[0].close_end, false, pages[0].0)
        && qs[i] == (TimeMachineRequest { cursor: qs[i].cursor, close_end: qs[i].close_end, ..qs[0] }) by {
        lemma_time_machine_request_at(qs, pages, i);
    }
}

/// How a traversal's `TimeMachineGrpcRequest` moves on after a page that hands out cursor
/// `c`: the cursor is `c`, an omitted end is left as it is, and every other
/// field stays.
pub open spec fn time_machine_grpc_request_after(q: TimeMachineGrpcRequest, close_end_ms: i64, c: Seq<char>, q2: TimeMachineGrpcRequest) -> bool {
    &&& opt_string_view(q2.cursor) == Some(c)
    &&& q2 == (TimeMachineGrpcRequest { cursor: q2.cursor, close_end: frozen_close_end(q.close_end, false, close_end_ms), ..q })
}

proof fn lemma_time_machine_grpc_request_at(qs: Seq<TimeMachineGrpcRequest>, pages: Seq<(i64, Seq<char>)>, i: int)
    requires
        qs.len() == pages.len() + 1,
        forall|j: int| 0 <= j < pages.len() ==> time_machine_grpc_request_after(#[trigger] qs[j], pages[j].0, pages[j].1, qs[j + 1]),
        1 <= i < qs.len(),
    ensures
        opt_string_view(qs[i].cursor) == Some(pages[i - 1].1),
        qs[i].close_end == frozen_close_end(qs[0].close_end, false, pages[0].0),
        qs[i] == (TimeMachineGrpcRequest { cursor: qs[i].cursor, close_end: qs[i].close_end, ..qs[0] }),
    decreases i,
{
    assert(time_machine_grpc_request_after(qs[i - 1], pages[i - 1].0, pages[i - 1].1, qs[i]));
    if i > 1 {
        lemma_time_machine_grpc_request_at(qs, pages, i - 1);
    }
}

/// The requests a `TimeMachineGrpcRequest` traversal sends: after the first, each carries the
/// previous page's cursor and the end of the first request; every other field is the
/// first request's.
pub proof fn law_time_machine_grpc_traversal_requests(qs: Seq<TimeMachineGrpcRequest>, pages: Seq<(i64, Seq<char>)>)
    requires
        qs.len() == pages.len() + 1,
        forall|j: int| 0 <= j < pages.len() ==> time_machine_grpc_request_after(#[trigger] qs[j], pages[j].0, pages[j].1, qs[j + 1]),
    ensures
        forall|i: int|
            1 <= i < qs.len() ==> opt_string_view(#[trigger] qs[i].cursor) == Some(pages[i - 1].1)
                && qs[i].close_end == frozen_close_end(qs[0].close_end, false, pages[0].0)
                && qs[i] == (TimeMachineGrpcRequest { cursor: qs[i].cursor, close_end: qs[i].close_end, ..qs[0] }),
{
    assert forall|i: int| 1 <= i < qs.len() implies opt_string_view(#[trigger] qs[i].cursor) == Some(pages[i - 1].1)
        && qs[i].close_end == frozen_close_end(qs[0].close_end, false, pages[0].0)
        && qs[i] == (TimeMachineGrpcRequest { cursor: qs[i].cursor, close_end: qs[i].close_end, ..qs[0] }) by {
        lemma_time_machine_grpc_request_at(qs, pages, i);
    }
}

} // verus!

