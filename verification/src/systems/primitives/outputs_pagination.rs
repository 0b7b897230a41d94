//! Explicit cursor traversal: calls hand out pagers, and a pager decides,
//! page by page, the next request and when the traversal ends.
use vstd::prelude::*;
use crate::sdk_core::error::SdkError;
use crate::sdk_core::pagination::{
    PaginationAdvance, PaginationState, PaginationStateView, advance_step, opt_view, pager_step,
    require_explicit_close_end, frozen_close_end, DEFAULT_TRAVERSE_MAX_PAGES,
};
use crate::sdk_core::time::TimeInput;
use crate::sdk_core::text::opt_string_view;
use crate::systems::primitives::client::Primitives;
use crate::systems::primitives::types::{RangeOutputsGrpcRequest, RangeOutputsRequest, SearchOutputsGrpcRequest, SearchOutputsRequest, TimeMachineOutputsGrpcRequest, TimeMachineOutputsRequest};

verus! {

/// A `RangeOutputsRequest` ready to be sent once or traversed.
#[derive(Debug)]
pub struct RangeCall<'a> {
    client: &'a Primitives,
    request: RangeOutputsRequest,
}

/// Page-by-page traversal of a `RangeOutputsRequest`.
#[derive(Debug)]
pub struct RangePager<'a> {
    client: &'a Primitives,
    request: RangeOutputsRequest,
    state: PaginationState,
    finished: bool,
}

impl<'a> RangeCall<'a> {
    pub closed spec fn spec_request(&self) -> RangeOutputsRequest {
        self.request
    }

    pub closed spec fn spec_client(&self) -> &'a Primitives {
        self.client
    }

    pub fn new(client: &'a Primitives, request: RangeOutputsRequest) -> (r: Self)
        ensures
            r.spec_request() == request,
            r.spec_client() == client,
    {
        RangeCall { client, request }
    }

    /// The client the request goes to.
    pub fn client(&self) -> (r: &'a Primitives)
        ensures
            r == self.spec_client(),
    {
        self.client
    }

    /// The request as it will be sent.
    pub fn request(&self) -> (r: &RangeOutputsRequest)
        ensures
            *r == self.spec_request(),
    {
        &self.request
    }

    /// A pager over the request's pages.
    pub fn pager(self) -> (r: Result<RangePager<'a>, SdkError>)
        ensures
            r is Ok,
            r matches Ok(p) ==> p.spec_request() == self.spec_request() && !p.spec_finished()
                && p.spec_state() == (PaginationStateView {
                pages_fetched: 0,
                max_pages: DEFAULT_TRAVERSE_MAX_PAGES as nat,
                last_cursor: None,
            }) && p.spec_client() == self.spec_client(),
    {
        Ok(RangePager::new(self.client, self.request))
    }
}

impl<'a> RangePager<'a> {
    pub closed spec fn spec_request(&self) -> RangeOutputsRequest {
        self.request
    }

    pub closed spec fn spec_finished(&self) -> bool {
        self.finished
    }

    pub closed spec fn spec_state(&self) -> PaginationStateView {
        self.state@
    }

    pub closed spec fn spec_client(&self) -> &'a Primitives {
        self.client
    }

    fn new(client: &'a Primitives, request: RangeOutputsRequest) -> (r: Self)
        ensures
            r.spec_request() == request,
            !r.spec_finished(),
            r.spec_state() == (PaginationStateView {
                pages_fetched: 0,
                max_pages: DEFAULT_TRAVERSE_MAX_PAGES as nat,
                last_cursor: None,
            }),
            r.spec_client() == client,
    {
        RangePager { client, request, state: PaginationState::new(), finished: false }
    }

    pub fn pages_fetched(&self) -> (r: usize)
        ensures
            r == self.spec_state().pages_fetched,
    {
        self.state.pages_fetched()
    }

    /// The client the pages come from.
    pub fn client(&self) -> (r: &'a Primitives)
        ensures
            r == self.spec_client(),
    {
        self.client
    }

    /// The request for the next page, or `None` once the traversal has ended.
    pub fn pending_request(&self) -> (r: Option<&RangeOutputsRequest>)
        ensures
            self.spec_finished() ==> r is None,
            !self.spec_finished() ==> (r matches Some(q) && *q == self.spec_request()),
    {
        if self.finished {
            None
        } else {
            Some(&self.request)
        }
    }

    /// Takes in the page just fetched: its close end, next cursor and done
    /// flag. An omitted close end is frozen to the page's. The
    /// traversal goes on with the next cursor, ends when the page is done or
    /// has no cursor, and is refused when the budget is spent or the cursor
    /// repeats. Once the traversal has ended, a page changes nothing.
    pub fn record_page(&mut self, close_end_ms: i64, next_cursor: Option<&str>, done: bool) -> (r:
        Result<(), SdkError>)
        ensures
            !old(self).spec_finished() ==> (final(self).spec_client() == old(self).spec_client()),
            !old(self).spec_finished() ==> (final(self).spec_state() == advance_step(old(self).spec_state(), opt_view(next_cursor), done).0),
            !old(self).spec_finished() ==> (final(self).spec_request().close_end == frozen_close_end(
                old(self).spec_request().close_end,
                true,
                close_end_ms,
            )),
            !old(self).spec_finished() ==> (match advance_step(old(self).spec_state(), opt_view(next_cursor), done).1 {
                Ok(Some(c)) => r is Ok && !final(self).spec_finished() && opt_string_view(
                    final(self).spec_request().cursor,
                ) == Some(c) && final(self).spec_request() == (RangeOutputsRequest {
                    cursor: final(self).spec_request().cursor,
                    close_end: final(self).spec_request().close_end,
                    ..old(self).spec_request()
                }),
                Ok(None) => r is Ok && final(self).spec_finished() && final(self).spec_request() == (RangeOutputsRequest {
                    close_end: final(self).spec_request().close_end,
                    ..old(self).spec_request()
                }),
                Err(_) => r matches Err(SdkError::ContractDrift { .. }) && !final(self).spec_finished()
                    && final(self).spec_request() == (RangeOutputsRequest {
                    close_end: final(self).spec_request().close_end,
                    ..old(self).spec_request()
                }),
            }),
            old(self).spec_finished() ==> (r is Ok && *final(self) == *old(self)),
            (final(self).spec_state(), final(self).spec_finished()) == pager_step(
                old(self).spec_state(),
                old(self).spec_finished(),
                (opt_view(next_cursor), done),
            ),
            !old(self).spec_finished() ==> (advance_step(old(self).spec_state(), opt_view(next_cursor), done).1 matches Ok(Some(c))
                ==> range_outputs_request_after(old(self).spec_request(), close_end_ms, c, final(self).spec_request())),
    {
        if self.finished {
            return Ok(());
        }
        if self.request.close_end.is_none() {
            self.request.close_end = Some(TimeInput::Ms(close_end_ms));
        }
        self.apply_advance(next_cursor, done)
    }

    fn apply_advance(&mut self, next_cursor: Option<&str>, done: bool) -> (r: Result<(), SdkError>)
        requires
            !old(self).spec_finished(),
        ensures
            final(self).spec_client() == old(self).spec_client(),
            final(self).spec_state() == advance_step(old(self).spec_state(), opt_view(next_cursor), done).0,
            match advance_step(old(self).spec_state(), opt_view(next_cursor), done).1 {
                Ok(Some(c)) => r is Ok && !final(self).spec_finished() && opt_string_view(
                    final(self).spec_request().cursor,
                ) == Some(c) && final(self).spec_request() == (RangeOutputsRequest {
                    cursor: final(self).spec_request().cursor,
                    ..old(self).spec_request()
                }),
                Ok(None) => r is Ok && final(self).spec_finished() && final(self).spec_request()
                    == old(self).spec_request(),
                Err(_) => r matches Err(SdkError::ContractDrift { .. }) && !final(self).spec_finished()
                    && final(self).spec_request() == old(self).spec_request(),
            },
    {
        match self.state.advance(next_cursor, done) {
            Ok(PaginationAdvance::Continue { cursor }) => {
                self.request.cursor = Some(cursor);
                Ok(())
            },
            Ok(PaginationAdvance::Finished) => {
                self.finished = true;
                Ok(())
            },
            Err(e) => Err(e),
        }
    }
}

/// A `RangeOutputsGrpcRequest` ready to be sent once or traversed.
#[derive(Debug)]
pub struct RangeGrpcCall<'a> {
    client: &'a Primitives,
    request: RangeOutputsGrpcRequest,
}

/// Page-by-page traversal of a `RangeOutputsGrpcRequest`.
#[derive(Debug)]
pub struct RangeGrpcPager<'a> {
    client: &'a Primitives,
    request: RangeOutputsGrpcRequest,
    state: PaginationState,
    finished: bool,
}

impl<'a> RangeGrpcCall<'a> {
    pub closed spec fn spec_request(&self) -> RangeOutputsGrpcRequest {
        self.request
    }

    pub closed spec fn spec_client(&self) -> &'a Primitives {
        self.client
    }

    pub fn new(client: &'a Primitives, request: RangeOutputsGrpcRequest) -> (r: Self)
        ensures
            r.spec_request() == request,
            r.spec_client() == client,
    {
        RangeGrpcCall { client, request }
    }

    /// The client the request goes to.
    pub fn client(&self) -> (r: &'a Primitives)
        ensures
            r == self.spec_client(),
    {
        self.client
    }

    /// The request as it will be sent.
    pub fn request(&self) -> (r: &RangeOutputsGrpcRequest)
        ensures
            *r == self.spec_request(),
    {
        &self.request
    }

    /// A pager over the request's pages.
    pub fn pager(self) -> (r: Result<RangeGrpcPager<'a>, SdkError>)
        ensures
            r is Ok,
            r matches Ok(p) ==> p.spec_request() == self.spec_request() && !p.spec_finished()
                && p.spec_state() == (PaginationStateView {
                pages_fetched: 0,
                max_pages: DEFAULT_TRAVERSE_MAX_PAGES as nat,
                last_cursor: None,
            }) && p.spec_client() == self.spec_client(),
    {
        Ok(RangeGrpcPager::new(self.client, self.request))
    }
}

impl<'a> RangeGrpcPager<'a> {
    pub closed spec fn spec_request(&self) -> RangeOutputsGrpcRequest {
        self.request
    }

    pub closed spec fn spec_finished(&self) -> bool {
        self.finished
    }

    pub closed spec fn spec_state(&self) -> PaginationStateView {
        self.state@
    }

    pub closed spec fn spec_client(&self) -> &'a Primitives {
        self.client
    }

    fn new(client: &'a Primitives, request: RangeOutputsGrpcRequest) -> (r: Self)
        ensures
            r.spec_request() == request,
            !r.spec_finished(),
            r.spec_state() == (PaginationStateView {
                pages_fetched: 0,
                max_pages: DEFAULT_TRAVERSE_MAX_PAGES as nat,
                last_cursor: None,
            }),
            r.spec_client() == client,
    {
        RangeGrpcPager { client, request, state: PaginationState::new(), finished: false }
    }

    pub fn pages_fetched(&self) -> (r: usize)
        ensures
            r == self.spec_state().pages_fetched,
    {
        self.state.pages_fetched()
    }

    /// The client the pages come from.
    pub fn client(&self) -> (r: &'a Primitives)
        ensures
            r == self.spec_client(),
    {
        self.client
    }

    /// The request for the next page, or `None` once the traversal has ended.
    pub fn pending_request(&self) -> (r: Option<&RangeOutputsGrpcRequest>)
        ensures
            self.spec_finished() ==> r is None,
            !self.spec_finished() ==> (r matches Some(q) && *q == self.spec_request()),
    {
        if self.finished {
            None
        } else {
            Some(&self.request)
        }
    }

    /// Takes in the page just fetched: its close end, next cursor and done
    /// flag. An omitted close end is frozen to the page's. The
    /// traversal goes on with the next cursor, ends when the page is done or
    /// has no cursor, and is refused when the budget is spent or the cursor
    /// repeats. Once the traversal has ended, a page changes nothing.
    pub fn record_page(&mut self, close_end_ms: i64, next_cursor: Option<&str>, done: bool) -> (r:
        Result<(), SdkError>)
        ensures
            !old(self).spec_finished() ==> (final(self).spec_client() == old(self).spec_client()),
            !old(self).spec_finished() ==> (final(self).spec_state() == advance_step(old(self).spec_state(), opt_view(next_cursor), done).0),
            !old(self).spec_finished() ==> (final(self).spec_request().close_end == frozen_close_end(
                old(self).spec_request().close_end,
                true,
                close_end_ms,
            )),
            !old(self).spec_finished() ==> (match advance_step(old(self).spec_state(), opt_view(next_cursor), done).1 {
                Ok(Some(c)) => r is Ok && !final(self).spec_finished() && opt_string_view(
                    final(self).spec_request().cursor,
                ) == Some(c) && final(self).spec_request() == (RangeOutputsGrpcRequest {
                    cursor: final(self).spec_request().cursor,
                    close_end: final(self).spec_request().close_end,
                    ..old(self).spec_request()
                }),
                Ok(None) => r is Ok && final(self).spec_finished() && final(self).spec_request() == (RangeOutputsGrpcRequest {
                    close_end: final(self).spec_request().close_end,
                    ..old(self).spec_request()
                }),
                Err(_) => r matches Err(SdkError::ContractDrift { .. }) && !final(self).spec_finished()
                    && final(self).spec_request() == (RangeOutputsGrpcRequest {
                    close_end: final(self).spec_request().close_end,
                    ..old(self).spec_request()
                }),
            }),
            old(self).spec_finished() ==> (r is Ok && *final(self) == *old(self)),
            (final(self).spec_state(), final(self).spec_finished()) == pager_step(
                old(self).spec_state(),
                old(self).spec_finished(),
                (opt_view(next_cursor), done),
            ),
            !old(self).spec_finished() ==> (advance_step(old(self).spec_state(), opt_view(next_cursor), done).1 matches Ok(Some(c))
                ==> range_outputs_grpc_request_after(old(self).spec_request(), close_end_ms, c, final(self).spec_request())),
    {
        if self.finished {
            return Ok(());
        }
        if self.request.close_end.is_none() {
            self.request.close_end = Some(TimeInput::Ms(close_end_ms));
        }
        self.apply_advance(next_cursor, done)
    }

    fn apply_advance(&mut self, next_cursor: Option<&str>, done: bool) -> (r: Result<(), SdkError>)
        requires
            !old(self).spec_finished(),
        ensures
            final(self).spec_client() == old(self).spec_client(),
            final(self).spec_state() == advance_step(old(self).spec_state(), opt_view(next_cursor), done).0,
            match advance_step(old(self).spec_state(), opt_view(next_cursor), done).1 {
                Ok(Some(c)) => r is Ok && !final(self).spec_finished() && opt_string_view(
                    final(self).spec_request().cursor,
                ) == Some(c) && final(self).spec_request() == (RangeOutputsGrpcRequest {
                    cursor: final(self).spec_request().cursor,
                    ..old(self).spec_request()
                }),
                Ok(None) => r is Ok && final(self).spec_finished() && final(self).spec_request()
                    == old(self).spec_request(),
                Err(_) => r matches Err(SdkError::ContractDrift { .. }) && !final(self).spec_finished()
                    && final(self).spec_request() == old(self).spec_request(),
            },
    {
        match self.state.advance(next_cursor, done) {
            Ok(PaginationAdvance::Continue { cursor }) => {
                self.request.cursor = Some(cursor);
                Ok(())
            },
            Ok(PaginationAdvance::Finished) => {
                self.finished = true;
                Ok(())
            },
            Err(e) => Err(e),
        }
    }
}

/// A `SearchOutputsRequest` ready to be sent once or traversed.
#[derive(Debug)]
pub struct SearchCall<'a> {
    client: &'a Primitives,
    request: SearchOutputsRequest,
}

/// Page-by-page traversal of a `SearchOutputsRequest`.
#[derive(Debug)]
pub struct SearchPager<'a> {
    client: &'a Primitives,
    request: SearchOutputsRequest,
    state: PaginationState,
    finished: bool,
}

impl<'a> SearchCall<'a> {
    pub closed spec fn spec_request(&self) -> SearchOutputsRequest {
        self.request
    }

    pub closed spec fn spec_client(&self) -> &'a Primitives {
        self.client
    }

    pub fn new(client: &'a Primitives, request: SearchOutputsRequest) -> (r: Self)
        ensures
            r.spec_request() == request,
            r.spec_client() == client,
    {
        SearchCall { client, request }
    }

    /// The client the request goes to.
    pub fn client(&self) -> (r: &'a Primitives)
        ensures
            r == self.spec_client(),
    {
        self.client
    }

    /// The request as it will be sent.
    pub fn request(&self) -> (r: &SearchOutputsRequest)
        ensures
            *r == self.spec_request(),
    {
        &self.request
    }

    /// A pager over the request's pages.
    pub fn pager(self) -> (r: Result<SearchPager<'a>, SdkError>)
        ensures
            self.spec_request().close_end is Some <==> r is Ok,
            r is Err ==> (r matches Err(SdkError::UnsupportedOrUnprovedUsage { message })
                && message@ == "search"@ + " traversal requires explicit close_end"@),
            r matches Ok(p) ==> p.spec_request() == self.spec_request() && !p.spec_finished()
                && p.spec_state() == (PaginationStateView {
                pages_fetched: 0,
                max_pages: DEFAULT_TRAVERSE_MAX_PAGES as nat,
                last_cursor: None,
            }) && p.spec_client() == self.spec_client(),
    {
        require_explicit_close_end(self.request.close_end.as_ref(), "search")?;
        Ok(SearchPager::new(self.client, self.request))
    }
}

impl<'a> SearchPager<'a> {
    pub closed spec fn spec_request(&self) -> SearchOutputsRequest {
        self.request
    }

    pub closed spec fn spec_finished(&self) -> bool {
        self.finished
    }

    pub closed spec fn spec_state(&self) -> PaginationStateView {
        self.state@
    }

    pub closed spec fn spec_client(&self) -> &'a Primitives {
        self.client
    }

    fn new(client: &'a Primitives, request: SearchOutputsRequest) -> (r: Self)
        ensures
            r.spec_request() == request,
            !r.spec_finished(),
            r.spec_state() == (PaginationStateView {
                pages_fetched: 0,
                max_pages: DEFAULT_TRAVERSE_MAX_PAGES as nat,
                last_cursor: None,
            }),
            r.spec_client() == client,
    {
        SearchPager { client, request, state: PaginationState::new(), finished: false }
    }

    pub fn pages_fetched(&self) -> (r: usize)
        ensures
            r == self.spec_state().pages_fetched,
    {
        self.state.pages_fetched()
    }

    /// The client the pages come from.
    pub fn client(&self) -> (r: &'a Primitives)
        ensures
            r == self.spec_client(),
    {
        self.client
    }

    /// The request for the next page, or `None` once the traversal has ended.
    pub fn pending_request(&self) -> (r: Option<&SearchOutputsRequest>)
        ensures
            self.spec_finished() ==> r is None,
            !self.spec_finished() ==> (r matches Some(q) && *q == self.spec_request()),
    {
        if self.finished {
            None
        } else {
            Some(&self.request)
        }
    }

    /// Takes in the page just fetched: its close end, next cursor and done
    /// flag. The traversal goes on with the next cursor, ends when the page is done or
    /// has no cursor, and is refused when the budget is spent or the cursor
    /// repeats. Once the traversal has ended, a page changes nothing.
    pub fn record_page(&mut self, close_end_ms: i64, next_cursor: Option<&str>, done: bool) -> (r:
        Result<(), SdkError>)
        ensures
            !old(self).spec_finished() ==> (final(self).spec_client() == old(self).spec_client()),
            !old(self).spec_finished() ==> (final(self).spec_state() == advance_step(old(self).spec_state(), opt_view(next_cursor), done).0),
            !old(self).spec_finished() ==> (final(self).spec_request().close_end == frozen_close_end(
                old(self).spec_request().close_end,
                false,
                close_end_ms,
            )),
            !old(self).spec_finished() ==> (match advance_step(old(self).spec_state(), opt_view(next_cursor), done).1 {
                Ok(Some(c)) => r is Ok && !final(self).spec_finished() && opt_string_view(
                    final(self).spec_request().cursor,
                ) == Some(c) && final(self).spec_request() == (SearchOutputsRequest {
                    cursor: final(self).spec_request().cursor,
                    close_end: final(self).spec_request().close_end,
                    ..old(self).spec_request()
                }),
                Ok(None) => r is Ok && final(self).spec_finished() && final(self).spec_request() == (SearchOutputsRequest {
                    close_end: final(self).spec_request().close_end,
                    ..old(self).spec_request()
                }),
                Err(_) => r matches Err(SdkError::ContractDrift { .. }) && !final(self).spec_finished()
                    && final(self).spec_request() == (SearchOutputsRequest {
                    close_end: final(self).spec_request().close_end,
                    ..old(self).spec_request()
                }),
            }),
            old(self).spec_finished() ==> (r is Ok && *final(self) == *old(self)),
            (final(self).spec_state(), final(self).spec_finished()) == pager_step(
                old(self).spec_state(),
                old(self).spec_finished(),
                (opt_view(next_cursor), done),
            ),
            !old(self).spec_finished() ==> (advance_step(old(self).spec_state(), opt_view(next_cursor), done).1 matches Ok(Some(c))
                ==> search_outputs_request_after(old(self).spec_request(), close_end_ms, c, final(self).spec_request())),
    {
        if self.finished {
            return Ok(());
        }
        self.apply_advance(next_cursor, done)
    }

    fn apply_advance(&mut self, next_cursor: Option<&str>, done: bool) -> (r: Result<(), SdkError>)
        requires
            !old(self).spec_finished(),
        ensures
            final(self).spec_client() == old(self).spec_client(),
            final(self).spec_state() == advance_step(old(self).spec_state(), opt_view(next_cursor), done).0,
            match advance_step(old(self).spec_state(), opt_view(next_cursor), done).1 {
                Ok(Some(c)) => r is Ok && !final(self).spec_finished() && opt_string_view(
                    final(self).spec_request().cursor,
                ) == Some(c) && final(self).spec_request() == (SearchOutputsRequest {
                    cursor: final(self).spec_request().cursor,
                    ..old(self).spec_request()
                }),
                Ok(None) => r is Ok && final(self).spec_finished() && final(self).spec_request()
                    == old(self).spec_request(),
                Err(_) => r matches Err(SdkError::ContractDrift { .. }) && !final(self).spec_finished()
                    && final(self).spec_request() == old(self).spec_request(),
            },
    {
        match self.state.advance(next_cursor, done) {
            Ok(PaginationAdvance::Continue { cursor }) => {
                self.request.cursor = Some(cursor);
                Ok(())
            },
            Ok(PaginationAdvance::Finished) => {
                self.finished = true;
                Ok(())
            },
            Err(e) => Err(e),
        }
    }
}

/// A `SearchOutputsGrpcRequest` ready to be sent once or traversed.
#[derive(Debug)]
pub struct SearchGrpcCall<'a> {
    client: &'a Primitives,
    request: SearchOutputsGrpcRequest,
}

/// Page-by-page traversal of a `SearchOutputsGrpcRequest`.
#[derive(Debug)]
pub struct SearchGrpcPager<'a> {
    client: &'a Primitives,
    request: SearchOutputsGrpcRequest,
    state: PaginationState,
    finished: bool,
}

impl<'a> SearchGrpcCall<'a> {
    pub closed spec fn spec_request(&self) -> SearchOutputsGrpcRequest {
        self.request
    }

    pub closed spec fn spec_client(&self) -> &'a Primitives {
        self.client
    }

    pub fn new(client: &'a Primitives, request: SearchOutputsGrpcRequest) -> (r: Self)
        ensures
            r.spec_request() == request,
            r.spec_client() == client,
    {
        SearchGrpcCall { client, request }
    }

    /// The client the request goes to.
    pub fn client(&self) -> (r: &'a Primitives)
        ensures
            r == self.spec_client(),
    {
        self.client
    }

    /// The request as it will be sent.
    pub fn request(&self) -> (r: &SearchOutputsGrpcRequest)
        ensures
            *r == self.spec_request(),
    {
        &self.request
    }

    /// A pager over the request's pages.
    pub fn pager(self) -> (r: Result<SearchGrpcPager<'a>, SdkError>)
        ensures
            self.spec_request().close_end is Some <==> r is Ok,
            r is Err ==> (r matches Err(SdkError::UnsupportedOrUnprovedUsage { message })
                && message@ == "search"@ + " traversal requires explicit close_end"@),
            r matches Ok(p) ==> p.spec_request() == self.spec_request() && !p.spec_finished()
                && p.spec_state() == (PaginationStateView {
                pages_fetched: 0,
                max_pages: DEFAULT_TRAVERSE_MAX_PAGES as nat,
                last_cursor: None,
            }) && p.spec_client() == self.spec_client(),
    {
        require_explicit_close_end(self.request.close_end.as_ref(), "search")?;
        Ok(SearchGrpcPager::new(self.client, self.request))
    }
}

impl<'a> SearchGrpcPager<'a> {
    pub closed spec fn spec_request(&self) -> SearchOutputsGrpcRequest {
        self.request
    }

    pub closed spec fn spec_finished(&self) -> bool {
        self.finished
    }

    pub closed spec fn spec_state(&self) -> PaginationStateView {
        self.state@
    }

    pub closed spec fn spec_client(&self) -> &'a Primitives {
        self.client
    }

    fn new(client: &'a Primitives, request: SearchOutputsGrpcRequest) -> (r: Self)
        ensures
            r.spec_request() == request,
            !r.spec_finished(),
            r.spec_state() == (PaginationStateView {
                pages_fetched: 0,
                max_pages: DEFAULT_TRAVERSE_MAX_PAGES as nat,
                last_cursor: None,
            }),
            r.spec_client() == client,
    {
        SearchGrpcPager { client, request, state: PaginationState::new(), finished: false }
    }

    pub fn pages_fetched(&self) -> (r: usize)
        ensures
            r == self.spec_state().pages_fetched,
    {
        self.state.pages_fetched()
    }

    /// The client the pages come from.
    pub fn client(&self) -> (r: &'a Primitives)
        ensures
            r == self.spec_client(),
    {
        self.client
    }

    /// The request for the next page, or `None` once the traversal has ended.
    pub fn pending_request(&self) -> (r: Option<&SearchOutputsGrpcRequest>)
        ensures
            self.spec_finished() ==> r is None,
            !self.spec_finished() ==> (r matches Some(q) && *q == self.spec_request()),
    {
        if self.finished {
            None
        } else {
            Some(&self.request)
        }
    }

    /// Takes in the page just fetched: its close end, next cursor and done
    /// flag. The traversal goes on with the next cursor, ends when the page is done or
    /// has no cursor, and is refused when the budget is spent or the cursor
    /// repeats. Once the traversal has ended, a page changes nothing.
    pub fn record_page(&mut self, close_end_ms: i64, next_cursor: Option<&str>, done: bool) -> (r:
        Result<(), SdkError>)
        ensures
            !old(self).spec_finished() ==> (final(self).spec_client() == old(self).spec_client()),
            !old(self).spec_finished() ==> (final(self).spec_state() == advance_step(old(self).spec_state(), opt_view(next_cursor), done).0),
            !old(self).spec_finished() ==> (final(self).spec_request().close_end == frozen_close_end(
                old(self).spec_request().close_end,
                false,
                close_end_ms,
            )),
            !old(self).spec_finished() ==> (match advance_step(old(self).spec_state(), opt_view(next_cursor), done).1 {
                Ok(Some(c)) => r is Ok && !final(self).spec_finished() && opt_string_view(
                    final(self).spec_request().cursor,
                ) == Some(c) && final(self).spec_request() == (SearchOutputsGrpcRequest {
                    cursor: final(self).spec_request().cursor,
                    close_end: final(self).spec_request().close_end,
                    ..old(self).spec_request()
                }),
                Ok(None) => r is Ok && final(self).spec_finished() && final(self).spec_request() == (SearchOutputsGrpcRequest {
                    close_end: final(self).spec_request().close_end,
                    ..old(self).spec_request()
                }),
                Err(_) => r matches Err(SdkError::ContractDrift { .. }) && !final(self).spec_finished()
                    && final(self).spec_request() == (SearchOutputsGrpcRequest {
                    close_end: final(self).spec_request().close_end,
                    ..old(self).spec_request()
                }),
            }),
            old(self).spec_finished() ==> (r is Ok && *final(self) == *old(self)),
            (final(self).spec_state(), final(self).spec_finished()) == pager_step(
                old(self).spec_state(),
                old(self).spec_finished(),
                (opt_view(next_cursor), done),
            ),
            !old(self).spec_finished() ==> (advance_step(old(self).spec_state(), opt_view(next_cursor), done).1 matches Ok(Some(c))
                ==> search_outputs_grpc_request_after(old(self).spec_request(), close_end_ms, c, final(self).spec_request())),
    {
        if self.finished {
            return Ok(());
        }
        self.apply_advance(next_cursor, done)
    }

    fn apply_advance(&mut self, next_cursor: Option<&str>, done: bool) -> (r: Result<(), SdkError>)
        requires
            !old(self).spec_finished(),
        ensures
            final(self).spec_client() == old(self).spec_client(),
            final(self).spec_state() == advance_step(old(self).spec_state(), opt_view(next_cursor), done).0,
            match advance_step(old(self).spec_state(), opt_view(next_cursor), done).1 {
                Ok(Some(c)) => r is Ok && !final(self).spec_finished() && opt_string_view(
                    final(self).spec_request().cursor,
                ) == Some(c) && final(self).spec_request() == (SearchOutputsGrpcRequest {
                    cursor: final(self).spec_request().cursor,
                    ..old(self).spec_request()
                }),
                Ok(None) => r is Ok && final(self).spec_finished() && final(self).spec_request()
                    == old(self).spec_request(),
                Err(_) => r matches Err(SdkError::ContractDrift { .. }) && !final(self).spec_finished()
                    && final(self).spec_request() == old(self).spec_request(),
            },
    {
        match self.state.advance(next_cursor, done) {
            Ok(PaginationAdvance::Continue { cursor }) => {
                self.request.cursor = Some(cursor);
                Ok(())
            },
            Ok(PaginationAdvance::Finished) => {
                self.finished = true;
                Ok(())
            },
            Err(e) => Err(e),
        }
    }
}

/// A `TimeMachineOutputsRequest` ready to be sent once or traversed.
#[derive(Debug)]
pub struct TimeMachineCall<'a> {
    client: &'a Primitives,
    request: TimeMachineOutputsRequest,
}

/// Page-by-page traversal of a `TimeMachineOutputsRequest`.
#[derive(Debug)]
pub struct TimeMachinePager<'a> {
    client: &'a Primitives,
    request: TimeMachineOutputsRequest,
    state: PaginationState,
    finished: bool,
}

impl<'a> TimeMachineCall<'a> {
    pub closed spec fn spec_request(&self) -> TimeMachineOutputsRequest {
        self.request
    }

    pub closed spec fn spec_client(&self) -> &'a Primitives {
        self.client
    }

    pub fn new(client: &'a Primitives, request: TimeMachineOutputsRequest) -> (r: Self)
        ensures
            r.spec_request() == request,
            r.spec_client() == client,
    {
        TimeMachineCall { client, request }
    }

    /// The client the request goes to.
    pub fn client(&self) -> (r: &'a Primitives)
        ensures
            r == self.spec_client(),
    {
        self.client
    }

    /// The request as it will be sent.
    pub fn request(&self) -> (r: &TimeMachineOutputsRequest)
        ensures
            *r == self.spec_request(),
    {
        &self.request
    }

    /// A pager over the request's pages.
    pub fn pager(self) -> (r: Result<TimeMachinePager<'a>, SdkError>)
        ensures
            self.spec_request().close_end is Some <==> r is Ok,
            r is Err ==> (r matches Err(SdkError::UnsupportedOrUnprovedUsage { message })
                && message@ == "time-machine"@ + " traversal requires explicit close_end"@),
            r matches Ok(p) ==> p.spec_request() == self.spec_request() && !p.spec_finished()
                && p.spec_state() == (PaginationStateView {
                pages_fetched: 0,
                max_pages: DEFAULT_TRAVERSE_MAX_PAGES as nat,
                last_cursor: None,
            }) && p.spec_client() == self.spec_client(),
    {
        require_explicit_close_end(self.request.close_end.as_ref(), "time-machine")?;
        Ok(TimeMachinePager::new(self.client, self.request))
    }
}

impl<'a> TimeMachinePager<'a> {
    pub closed spec fn spec_request(&self) -> TimeMachineOutputsRequest {
        self.request
    }

    pub closed spec fn spec_finished(&self) -> bool {
        self.finished
    }

    pub closed spec fn spec_state(&self) -> PaginationStateView {
        self.state@
    }

    pub closed spec fn spec_client(&self) -> &'a Primitives {
        self.client
    }

    fn new(client: &'a Primitives, request: TimeMachineOutputsRequest) -> (r: Self)
        ensures
            r.spec_request() == request,
            !r.spec_finished(),
            r.spec_state() == (PaginationStateView {
                pages_fetched: 0,
                max_pages: DEFAULT_TRAVERSE_MAX_PAGES as nat,
                last_cursor: None,
            }),
            r.spec_client() == client,
    {
        TimeMachinePager { client, request, state: PaginationState::new(), finished: false }
    }

    pub fn pages_fetched(&self) -> (r: usize)
        ensures
            r == self.spec_state().pages_fetched,
    {
        self.state.pages_fetched()
    }

    /// The client the pages come from.
    pub fn client(&self) -> (r: &'a Primitives)
        ensures
            r == self.spec_client(),
    {
        self.client
    }

    /// The request for the next page, or `None` once the traversal has ended.
    pub fn pending_request(&self) -> (r: Option<&TimeMachineOutputsRequest>)
        ensures
            self.spec_finished() ==> r is None,
            !self.spec_finished() ==> (r matches Some(q) && *q == self.spec_request()),
    {
        if self.finished {
            None
        } else {
            Some(&self.request)
        }
    }

    /// Takes in the page just fetched: its close end, next cursor and done
    /// flag. The traversal goes on with the next cursor, ends when the page is done or
    /// has no cursor, and is refused when the budget is spent or the cursor
    /// repeats. Once the traversal has ended, a page changes nothing.
    pub fn record_page(&mut self, close_end_ms: i64, next_cursor: Option<&str>, done: bool) -> (r:
        Result<(), SdkError>)
        ensures
            !old(self).spec_finished() ==> (final(self).spec_client() == old(self).spec_client()),
            !old(self).spec_finished() ==> (final(self).spec_state() == advance_step(old(self).spec_state(), opt_view(next_cursor), done).0),
            !old(self).spec_finished() ==> (final(self).spec_request().close_end == frozen_close_end(
                old(self).spec_request().close_end,
                false,
                close_end_ms,
            )),
            !old(self).spec_finished() ==> (match advance_step(old(self).spec_state(), opt_view(next_cursor), done).1 {
                Ok(Some(c)) => r is Ok && !final(self).spec_finished() && opt_string_view(
                    final(self).spec_request().cursor,
                ) == Some(c) && final(self).spec_request() == (TimeMachineOutputsRequest {
                    cursor: final(self).spec_request().cursor,
                    close_end: final(self).spec_request().close_end,
                    ..old(self).spec_request()
                }),
                Ok(None) => r is Ok && final(self).spec_finished() && final(self).spec_request() == (TimeMachineOutputsRequest {
                    close_end: final(self).spec_request().close_end,
                    ..old(self).spec_request()
                }),
                Err(_) => r matches Err(SdkError::ContractDrift { .. }) && !final(self).spec_finished()
                    && final(self).spec_request() == (TimeMachineOutputsRequest {
                    close_end: final(self).spec_request().close_end,
                    ..old(self).spec_request()
                }),
            }),
            old(self).spec_finished() ==> (r is Ok && *final(self) == *old(self)),
            (final(self).spec_state(), final(self).spec_finished()) == pager_step(
                old(self).spec_state(),
                old(self).spec_finished(),
                (opt_view(next_cursor), done),
            ),
            !old(self).spec_finished() ==> (advance_step(old(self).spec_state(), opt_view(next_cursor), done).1 matches Ok(Some(c))
                ==> time_machine_outputs_request_after(old(self).spec_request(), close_end_ms, c, final(self).spec_request())),
    {
        if self.finished {
            return Ok(());
        }
        self.apply_advance(next_cursor, done)
    }

    fn apply_advance(&mut self, next_cursor: Option<&str>, done: bool) -> (r: Result<(), SdkError>)
        requires
            !old(self).spec_finished(),
        ensures
            final(self).spec_client() == old(self).spec_client(),
            final(self).spec_state() == advance_step(old(self).spec_state(), opt_view(next_cursor), done).0,
            match advance_step(old(self).spec_state(), opt_view(next_cursor), done).1 {
                Ok(Some(c)) => r is Ok && !final(self).spec_finished() && opt_string_view(
                    final(self).spec_request().cursor,
                ) == Some(c) && final(self).spec_request() == (TimeMachineOutputsRequest {
                    cursor: final(self).spec_request().cursor,
                    ..old(self).spec_request()
                }),
                Ok(None) => r is Ok && final(self).spec_finished() && final(self).spec_request()
                    == old(self).spec_request(),
                Err(_) => r matches Err(SdkError::ContractDrift { .. }) && !final(self).spec_finished()
                    && final(self).spec_request() == old(self).spec_request(),
            },
    {
        match self.state.advance(next_cursor, done) {
            Ok(PaginationAdvance::Continue { cursor }) => {
                self.request.cursor = Some(cursor);
                Ok(())
            },
            Ok(PaginationAdvance::Finished) => {
                self.finished = true;
                Ok(())
            },
            Err(e) => Err(e),
        }
    }
}

/// A `TimeMachineOutputsGrpcRequest` ready to be sent once or traversed.
#[derive(Debug)]
pub struct TimeMachineGrpcCall<'a> {
    client: &'a Primitives,
    request: TimeMachineOutputsGrpcRequest,
}

/// Page-by-page traversal of a `TimeMachineOutputsGrpcRequest`.
#[derive(Debug)]
pub struct TimeMachineGrpcPager<'a> {
    client: &'a Primitives,
    request: TimeMachineOutputsGrpcRequest,
    state: PaginationState,
    finished: bool,
}

impl<'a> TimeMachineGrpcCall<'a> {
    pub closed spec fn spec_request(&self) -> TimeMachineOutputsGrpcRequest {
        self.request
    }

    pub closed spec fn spec_client(&self) -> &'a Primitives {
        self.client
    }

    pub fn new(client: &'a Primitives, request: TimeMachineOutputsGrpcRequest) -> (r: Self)
        ensures
            r.spec_request() == request,
            r.spec_client() == client,
    {
        TimeMachineGrpcCall { client, request }
    }

    /// The client the request goes to.
    pub fn client(&self) -> (r: &'a Primitives)
        ensures
            r == self.spec_client(),
    {
        self.client
    }

    /// The request as it will be sent.
    pub fn request(&self) -> (r: &TimeMachineOutputsGrpcRequest)
        ensures
            *r == self.spec_request(),
    {
        &self.request
    }

    /// A pager over the request's pages.
    pub fn pager(self) -> (r: Result<TimeMachineGrpcPager<'a>, SdkError>)
        ensures
            self.spec_request().close_end is Some <==> r is Ok,
            r is Err ==> (r matches Err(SdkError::UnsupportedOrUnprovedUsage { message })
                && message@ == "time-machine"@ + " traversal requires explicit close_end"@),
            r matches Ok(p) ==> p.spec_request() == self.spec_request() && !p.spec_finished()
                && p.spec_state() == (PaginationStateView {
                pages_fetched: 0,
                max_pages: DEFAULT_TRAVERSE_MAX_PAGES as nat,
                last_cursor: None,
            }) && p.spec_client() == self.spec_client(),
    {
        require_explicit_close_end(self.request.close_end.as_ref(), "time-machine")?;
        Ok(TimeMachineGrpcPager::new(self.client, self.request))
    }
}

impl<'a> TimeMachineGrpcPager<'a> {
    pub closed spec fn spec_request(&self) -> TimeMachineOutputsGrpcRequest {
        self.request
    }

    pub closed spec fn spec_finished(&self) -> bool {
        self.finished
    }

    pub closed spec fn spec_state(&self) -> PaginationStateView {
        self.state@
    }

    pub closed spec fn spec_client(&self) -> &'a Primitives {
        self.client
    }

    fn new(client: &'a Primitives, request: TimeMachineOutputsGrpcRequest) -> (r: Self)
        ensures
            r.spec_request() == request,
            !r.spec_finished(),
            r.spec_state() == (PaginationStateView {
                pages_fetched: 0,
                max_pages: DEFAULT_TRAVERSE_MAX_PAGES as nat,
                last_cursor: None,
            }),
            r.spec_client() == client,
    {
        TimeMachineGrpcPager { client, request, state: PaginationState::new(), finished: false }
    }

    pub fn pages_fetched(&self) -> (r: usize)
        ensures
            r == self.spec_state().pages_fetched,
    {
        self.state.pages_fetched()
    }

    /// The client the pages come from.
    pub fn client(&self) -> (r: &'a Primitives)
        ensures
            r == self.spec_client(),
    {
        self.client
    }

    /// The request for the next page, or `None` once the traversal has ended.
    pub fn pending_request(&self) -> (r: Option<&TimeMachineOutputsGrpcRequest>)
        ensures
            self.spec_finished() ==> r is None,
            !self.spec_finished() ==> (r matches Some(q) && *q == self.spec_request()),
    {
        if self.finished {
            None
        } else {
            Some(&self.request)
        }
    }

    /// Takes in the page just fetched: its close end, next cursor and done
    /// flag. The traversal goes on with the next cursor, ends when the page is done or
    /// has no cursor, and is refused when the budget is spent or the cursor
    /// repeats. Once the traversal has ended, a page changes nothing.
    pub fn record_page(&mut self, close_end_ms: i64, next_cursor: Option<&str>, done: bool) -> (r:
        Result<(), SdkError>)
        ensures
            !old(self).spec_finished() ==> (final(self).spec_client() == old(self).spec_client()),
            !old(self).spec_finished() ==> (final(self).spec_state() == advance_step(old(self).spec_state(), opt_view(next_cursor), done).0),
            !old(self).spec_finished() ==> (final(self).spec_request().close_end == frozen_close_end(
                old(self).spec_request().close_end,
                false,
                close_end_ms,
            )),
            !old(self).spec_finished() ==> (match advance_step(old(self).spec_state(), opt_view(next_cursor), done).1 {
                Ok(Some(c)) => r is Ok && !final(self).spec_finished() && opt_string_view(
                    final(self).spec_request().cursor,
                ) == Some(c) && final(self).spec_request() == (TimeMachineOutputsGrpcRequest {
                    cursor: final(self).spec_request().cursor,
                    close_end: final(self).spec_request().close_end,
                    ..old(self).spec_request()
                }),
                Ok(None) => r is Ok && final(self).spec_finished() && final(self).spec_request() == (TimeMachineOutputsGrpcRequest {
                    close_end: final(self).spec_request().close_end,
                    ..old(self).spec_request()
                }),
                Err(_) => r matches Err(SdkError::ContractDrift { .. }) && !final(self).spec_finished()
                    && final(self).spec_request() == (TimeMachineOutputsGrpcRequest {
                    close_end: final(self).spec_request().close_end,
                    ..old(self).spec_request()
                }),
            }),
            old(self).spec_finished() ==> (r is Ok && *final(self) == *old(self)),
            (final(self).spec_state(), final(self).spec_finished()) == pager_step(
                old(self).spec_state(),
                old(self).spec_finished(),
                (opt_view(next_cursor), done),
            ),
            !old(self).spec_finished() ==> (advance_step(old(self).spec_state(), opt_view(next_cursor), done).1 matches Ok(Some(c))
                ==> time_machine_outputs_grpc_request_after(old(self).spec_request(), close_end_ms, c, final(self).spec_request())),
    {
        if self.finished {
            return Ok(());
        }
        self.apply_advance(next_cursor, done)
    }

    fn apply_advance(&mut self, next_cursor: Option<&str>, done: bool) -> (r: Result<(), SdkError>)
        requires
            !old(self).spec_finished(),
        ensures
            final(self).spec_client() == old(self).spec_client(),
            final(self).spec_state() == advance_step(old(self).spec_state(), opt_view(next_cursor), done).0,
            match advance_step(old(self).spec_state(), opt_view(next_cursor), done).1 {
                Ok(Some(c)) => r is Ok && !final(self).spec_finished() && opt_string_view(
                    final(self).spec_request().cursor,
                ) == Some(c) && final(self).spec_request() == (TimeMachineOutputsGrpcRequest {
                    cursor: final(self).spec_request().cursor,
                    ..old(self).spec_request()
                }),
                Ok(None) => r is Ok && final(self).spec_finished() && final(self).spec_request()
                    == old(self).spec_request(),
                Err(_) => r matches Err(SdkError::ContractDrift { .. }) && !final(self).spec_finished()
                    && final(self).spec_request() == old(self).spec_request(),
            },
    {
        match self.state.advance(next_cursor, done) {
            Ok(PaginationAdvance::Continue { cursor }) => {
                self.request.cursor = Some(cursor);
                Ok(())
            },
            Ok(PaginationAdvance::Finished) => {
                self.finished = true;
                Ok(())
            },
            Err(e) => Err(e),
        }
    }
}

/// How a traversal's `RangeOutputsRequest` moves on after a page that hands out cursor
/// `c`: the cursor is `c`, an omitted end is frozen to the page's, and every other
/// field stays.
pub open spec fn range_outputs_request_after(q: RangeOutputsRequest, close_end_ms: i64, c: Seq<char>, q2: RangeOutputsRequest) -> bool {
    &&& opt_string_view(q2.cursor) == Some(c)
    &&& q2 == (RangeOutputsRequest { cursor: q2.cursor, close_end: frozen_close_end(q.close_end, true, close_end_ms), ..q })
}

proof fn lemma_range_outputs_request_at(qs: Seq<RangeOutputsRequest>, pages: Seq<(i64, Seq<char>)>, i: int)
    requires
        qs.len() == pages.len() + 1,
        forall|j: int| 0 <= j < pages.len() ==> range_outputs_request_after(#[trigger] qs[j], pages[j].0, pages[j].1, qs[j + 1]),
        1 <= i < qs.len(),
    ensures
        opt_string_view(qs[i].cursor) == Some(pages[i - 1].1),
        qs[i].close_end == frozen_close_end(qs[0].close_end, true, pages[0].0),
        qs[i] == (RangeOutputsRequest { cursor: qs[i].cursor, close_end: qs[i].close_end, ..qs[0] }),
    decreases i,
{
    assert(range_outputs_request_after(qs[i - 1], pages[i - 1].0, pages[i - 1].1, qs[i]));
    if i > 1 {
        lemma_range_outputs_request_at(qs, pages, i - 1);
    }
}

/// The requests a `RangeOutputsRequest` traversal sends: after the first, each carries the
/// previous page's cursor and the end frozen to the first page's when it was omitted; every other field is the
/// first request's.
pub proof fn law_range_outputs_traversal_requests(qs: Seq<RangeOutputsRequest>, pages: Seq<(i64, Seq<char>)>)
    requires
        qs.len() == pages.len() + 1,
        forall|j: int| 0 <= j < pages.len() ==> range_outputs_request_after(#[trigger] qs[j], pages[j].0, pages[j].1, qs[j + 1]),
    ensures
        forall|i: int|
            1 <= i < qs.len() ==> opt_string_view(#[trigger] qs[i].cursor) == Some(pages[i - 1].1)
                && qs[i].close_end == frozen_close_end(qs[0].close_end, true, pages[0].0)
                && qs[i] == (RangeOutputsRequest { cursor: qs[i].cursor, close_end: qs[i].close_end, ..qs[0] }),
{
    assert forall|i: int| 1 <= i < qs.len() implies opt_string_view(#[trigger] qs[i].cursor) == Some(pages[i - 1].1)
        && qs[i].close_end == frozen_close_end(qs[0].close_end, true, pages[0].0)
        && qs[i] == (RangeOutputsRequest { cursor: qs[i].cursor, close_end: qs[i].close_end, ..qs[0] }) by {
        lemma_range_outputs_request_at(qs, pages, i);
    }
}

/// How a traversal's `RangeOutputsGrpcRequest` moves on after a page that hands out cursor
/// `c`: the cursor is `c`, an omitted end is frozen to the page's, and every other
/// field stays.
pub open spec fn range_outputs_grpc_request_after(q: RangeOutputsGrpcRequest, close_end_ms: i64, c: Seq<char>, q2: RangeOutputsGrpcRequest) -> bool {
    &&& opt_string_view(q2.cursor) == Some(c)
    &&& q2 == (RangeOutputsGrpcRequest { cursor: q2.cursor, close_end: frozen_close_end(q.close_end, true, close_end_ms), ..q })
}

proof fn lemma_range_outputs_grpc_request_at(qs: Seq<RangeOutputsGrpcRequest>, pages: Seq<(i64, Seq<char>)>, i: int)
    requires
        qs.len() == pages.len() + 1,
        forall|j: int| 0 <= j < pages.len() ==> range_outputs_grpc_request_after(#[trigger] qs[j], pages[j].0, pages[j].1, qs[j + 1]),
        1 <= i < qs.len(),
    ensures
        opt_string_view(qs[i].cursor) == Some(pages[i - 1].1),
        qs[i].close_end == frozen_close_end(qs[0].close_end, true, pages[0].0),
        qs[i] == (RangeOutputsGrpcRequest { cursor: qs[i].cursor, close_end: qs[i].close_end, ..qs[0] }),
    decreases i,
{
    assert(range_outputs_grpc_request_after(qs[i - 1], pages[i - 1].0, pages[i - 1].1, qs[i]));
    if i > 1 {
        lemma_range_outputs_grpc_request_at(qs, pages, i - 1);
    }
}

/// The requests a `RangeOutputsGrpcRequest` traversal sends: after the first, each carries the
/// previous page's cursor and the end frozen to the first page's when it was omitted; every other field is the
/// first request's.
pub proof fn law_range_outputs_grpc_traversal_requests(qs: Seq<RangeOutputsGrpcRequest>, pages: Seq<(i64, Seq<char>)>)
    requires
        qs.len() == pages.len() + 1,
        forall|j: int| 0 <= j < pages.len() ==> range_outputs_grpc_request_after(#[trigger] qs[j], pages[j].0, pages[j].1, qs[j + 1]),
    ensures
        forall|i: int|
            1 <= i < qs.len() ==> opt_string_view(#[trigger] qs[i].cursor) == Some(pages[i - 1].1)
                && qs[i].close_end == frozen_close_end(qs[0].close_end, true, pages[0].0)
                && qs[i] == (RangeOutputsGrpcRequest { cursor: qs[i].cursor, close_end: qs[i].close_end, ..qs[0] }),
{
    assert forall|i: int| 1 <= i < qs.len() implies opt_string_view(#[trigger] qs[i].cursor) == Some(pages[i - 1].1)
        && qs[i].close_end == frozen_close_end(qs[0].close_end, true, pages[0].0)
        && qs[i] == (RangeOutputsGrpcRequest { cursor: qs[i].cursor, close_end: qs[i].close_end, ..qs[0] }) by {
        lemma_range_outputs_grpc_request_at(qs, pages, i);
    }
}

/// How a traversal's `SearchOutputsRequest` moves on after a page that hands out cursor
/// `c`: the cursor is `c`, an omitted end is left as it is, and every other
/// field stays.
pub open spec fn search_outputs_request_after(q: SearchOutputsRequest, close_end_ms: i64, c: Seq<char>, q2: SearchOutputsRequest) -> bool {
    &&& opt_string_view(q2.cursor) == Some(c)
    &&& q2 == (SearchOutputsRequest { cursor: q2.cursor, close_end: frozen_close_end(q.close_end, false, close_end_ms), ..q })
}

proof fn lemma_search_outputs_request_at(qs: Seq<SearchOutputsRequest>, pages: Seq<(i64, Seq<char>)>, i: int)
    requires
        qs.len() == pages.len() + 1,
        forall|j: int| 0 <= j < pages.len() ==> search_outputs_request_after(#[trigger] qs[j], pages[j].0, pages[j].1, qs[j + 1]),
        1 <= i < qs.len(),
    ensures
        opt_string_view(qs[i].cursor) == Some(pages[i - 1].1),
        qs[i].close_end == frozen_close_end(qs[0].close_end, false, pages[0].0),
        qs[i] == (SearchOutputsRequest { cursor: qs[i].cursor, close_end: qs[i].close_end, ..qs[0] }),
    decreases i,
{
    assert(search_outputs_request_after(qs[i - 1], pages[i - 1].0, pages[i - 1].1, qs[i]));
    if i > 1 {
        lemma_search_outputs_request_at(qs, pages, i - 1);
    }
}

/// The requests a `SearchOutputsRequest` traversal sends: after the first, each carries the
/// previous page's cursor and the end of the first request; every other field is the
/// first request's.
pub proof fn law_search_outputs_traversal_requests(qs: Seq<SearchOutputsRequest>, pages: Seq<(i64, Seq<char>)>)
    requires
        qs.len() == pages.len() + 1,
        forall|j: int| 0 <= j < pages.len() ==> search_outputs_request_after(#[trigger] qs[j], pages[j].0, pages[j].1, qs[j + 1]),
    ensures
        forall|i: int|
            1 <= i < qs.len() ==> opt_string_view(#[trigger] qs[i].cursor) == Some(pages[i - 1].1)
                && qs[i].close_end == frozen_close_end(qs[0].close_end, false, pages[0].0)
                && qs[i] == (SearchOutputsRequest { cursor: qs[i].cursor, close_end: qs[i].close_end, ..qs[0] }),
{
    assert forall|i: int| 1 <= i < qs.len() implies opt_string_view(#[trigger] qs[i].cursor) == Some(pages[i - 1].1)
        && qs[i].close_end == frozen_close_end(qs[0].close_end, false, pages[0].0)
        && qs[i] == (SearchOutputsRequest { cursor: qs[i].cursor, close_end: qs[i].close_end, ..qs[0] }) by {
        lemma_search_outputs_request_at(qs, pages, i);
    }
}

/// How a traversal's `SearchOutputsGrpcRequest` moves on after a page that hands out cursor
/// `c`: the cursor is `c`, an omitted end is left as it is, and every other
/// field stays.
pub open spec fn search_outputs_grpc_request_after(q: SearchOutputsGrpcRequest, close_end_ms: i64, c: Seq<char>, q2: SearchOutputsGrpcRequest) -> bool {
    &&& opt_string_view(q2.cursor) == Some(c)
    &&& q2 == (SearchOutputsGrpcRequest { cursor: q2.cursor, close_end: frozen_close_end(q.close_end, false, close_end_ms), ..q })
}

proof fn lemma_search_outputs_grpc_request_at(qs: Seq<SearchOutputsGrpcRequest>, pages: Seq<(i64, Seq<char>)>, i: int)
    requires
        qs.len() == pages.len() + 1,
        forall|j: int| 0 <= j < pages.len() ==> search_outputs_grpc_request_after(#[trigger] qs[j], pages[j].0, pages[j].1, qs[j + 1]),
        1 <= i < qs.len(),
    ensures
        opt_string_view(qs[i].cursor) == Some(pages[i - 1].1),
        qs[i].close_end == frozen_close_end(qs[0].close_end, false, pages[0].0),
        qs[i] == (SearchOutputsGrpcRequest { cursor: qs[i].cursor, close_end: qs[i].close_end, ..qs[0] }),
    decreases i,
{
    assert(search_outputs_grpc_request_after(qs[i - 1], pages[i - 1].0, pages[i - 1].1, qs[i]));
    if i > 1 {
        lemma_search_outputs_grpc_request_at(qs, pages, i - 1);
    }
}

/// The requests a `SearchOutputsGrpcRequest` traversal sends: after the first, each carries the
/// previous page's cursor and the end of the first request; every other field is the
/// first request's.
pub proof fn law_search_outputs_grpc_traversal_requests(qs: Seq<SearchOutputsGrpcRequest>, pages: Seq<(i64, Seq<char>)>)
    requires
        qs.len() == pages.len() + 1,
        forall|j: int| 0 <= j < pages.len() ==> search_outputs_grpc_request_after(#[trigger] qs[j], pages[j].0, pages[j].1, qs[j + 1]),
    ensures
        forall|i: int|
            1 <= i < qs.len() ==> opt_string_view(#[trigger] qs[i].cursor) == Some(pages[i - 1].1)
                && qs[i].close_end == frozen_close_end(qs[0].close_end, false, pages[0].0)
                && qs[i] == (SearchOutputsGrpcRequest { cursor: qs[i].cursor, close_end: qs[i].close_end, ..qs[0] }),
{
    assert forall|i: int| 1 <= i < qs.len() implies opt_string_view(#[trigger] qs[i].cursor) == Some(pages[i - 1].1)
        && qs[i].close_end == frozen_close_end(qs[0].close_end, false, pages[0].0)
        && qs[i] == (SearchOutputsGrpcRequest { cursor: qs[i].cursor, close_end: qs[i].close_end, ..qs[0] }) by {
        lemma_search_outputs_grpc_request_at(qs, pages, i);
    }
}

/// How a traversal's `TimeMachineOutputsRequest` moves on after a page that hands out cursor
/// `c`: the cursor is `c`, an omitted end is left as it is, and every other
/// field stays.
pub open spec fn time_machine_outputs_request_after(q: TimeMachineOutputsRequest, close_end_ms: i64, c: Seq<char>, q2: TimeMachineOutputsRequest) -> bool {
    &&& opt_string_view(q2.cursor) == Some(c)
    &&& q2 == (TimeMachineOutputsRequest { cursor: q2.cursor, close_end: frozen_close_end(q.close_end, false, close_end_ms), ..q })
}

proof fn lemma_time_machine_outputs_request_at(qs: Seq<TimeMachineOutputsRequest>, pages: Seq<(i64, Seq<char>)>, i: int)
    requires
        qs.len() == pages.len() + 1,
        forall|j: int| 0 <= j < pages.len() ==> time_machine_outputs_request_after(#[trigger] qs[j], pages[j].0, pages[j].1, qs[j + 1]),
        1 <= i < qs.len(),
    ensures
        opt_string_view(qs[i].cursor) == Some(pages[i - 1].1),
        qs[i].close_end == frozen_close_end(qs[0].close_end, false, pages[0].0),
        qs[i] == (TimeMachineOutputsRequest { cursor: qs[i].cursor, close_end: qs[i].close_end, ..qs[0] }),
    decreases i,
{
    assert(time_machine_outputs_request_after(qs[i - 1], pages[i - 1].0, pages[i - 1].1, qs[i]));
    if i > 1 {
        lemma_time_machine_outputs_request_at(qs, pages, i - 1);
    }
}

/// The requests a `TimeMachineOutputsRequest` traversal sends: after the first, each carries the
/// previous page's cursor and the end of the first request; every other field is the
/// first request's.
pub proof fn law_time_machine_outputs_traversal_requests(qs: Seq<TimeMachineOutputsRequest>, pages: Seq<(i64, Seq<char>)>)
    requires
        qs.len() == pages.len() + 1,
        forall|j: int| 0 <= j < pages.len() ==> time_machine_outputs_request_after(#[trigger] qs[j], pages[j].0, pages[j].1, qs[j + 1]),
    ensures
        forall|i: int|
            1 <= i < qs.len() ==> opt_string_view(#[trigger] qs[i].cursor) == Some(pages[i - 1].1)
                && qs[i].close_end == frozen_close_end(qs[0].close_end, false, pages[0].0)
                && qs[i] == (TimeMachineOutputsRequest { cursor: qs[i].cursor, close_end: qs[i].close_end, ..qs[0] }),
{
    assert forall|i: int| 1 <= i < qs.len() implies opt_string_view(#[trigger] qs[i].cursor) == Some(pages[i - 1].1)
        && qs[i].close_end == frozen_close_end(qs[0].close_end, false, pages[0].0)
        && qs[i] == (TimeMachineOutputsRequest { cursor: qs[i].cursor, close_end: qs[i].close_end, ..qs[0] }) by {
        lemma_time_machine_outputs_request_at(qs, pages, i);
    }
}

/// How a traversal's `TimeMachineOutputsGrpcRequest` moves on after a page that hands out cursor
/// `c`: the cursor is `c`, an omitted end is left as it is, and every other
/// field stays.
pub open spec fn time_machine_outputs_grpc_request_after(q: TimeMachineOutputsGrpcRequest, close_end_ms: i64, c: Seq<char>, q2: TimeMachineOutputsGrpcRequest) -> bool {
    &&& opt_string_view(q2.cursor) == Some(c)
    &&& q2 == (TimeMachineOutputsGrpcRequest { cursor: q2.cursor, close_end: frozen_close_end(q.close_end, false, close_end_ms), ..q })
}

proof fn lemma_time_machine_outputs_grpc_request_at(qs: Seq<TimeMachineOutputsGrpcRequest>, pages: Seq<(i64, Seq<char>)>, i: int)
    requires
        qs.len() == pages.len() + 1,
        forall|j: int| 0 <= j < pages.len() ==> time_machine_outputs_grpc_request_after(#[trigger] qs[j], pages[j].0, pages[j].1, qs[j + 1]),
        1 <= i < qs.len(),
    ensures
        opt_string_view(qs[i].cursor) == Some(pages[i - 1].1),
        qs[i].close_end == frozen_close_end(qs[0].close_end, false, pages[0].0),
        qs[i] == (TimeMachineOutputsGrpcRequest { cursor: qs[i].cursor, close_end: qs[i].close_end, ..qs[0] }),
    decreases i,
{
    assert(time_machine_outputs_grpc_request_after(qs[i - 1], pages[i - 1].0, pages[i - 1].1, qs[i]));
    if i > 1 {
        lemma_time_machine_outputs_grpc_request_at(qs, pages, i - 1);
    }
}

/// The requests a `TimeMachineOutputsGrpcRequest` traversal sends: after the first, each carries the
/// previous page's cursor and the end of the first request; every other field is the
/// first request's.
pub proof fn law_time_machine_outputs_grpc_traversal_requests(qs: Seq<TimeMachineOutputsGrpcRequest>, pages: Seq<(i64, Seq<char>)>)
    requires
        qs.len() == pages.len() + 1,
        forall|j: int| 0 <= j < pages.len() ==> time_machine_outputs_grpc_request_after(#[trigger] qs[j], pages[j].0, pages[j].1, qs[j + 1]),
    ensures
        forall|i: int|
            1 <= i < qs.len() ==> opt_string_view(#[trigger] qs[i].cursor) == Some(pages[i - 1].1)
                && qs[i].close_end == frozen_close_end(qs[0].close_end, false, pages[0].0)
                && qs[i] == (TimeMachineOutputsGrpcRequest { cursor: qs[i].cursor, close_end: qs[i].close_end, ..qs[0] }),
{
    assert forall|i: int| 1 <= i < qs.len() implies opt_string_view(#[trigger] qs[i].cursor) == Some(pages[i - 1].1)
        && qs[i].close_end == frozen_close_end(qs[0].close_end, false, pages[0].0)
        && qs[i] == (TimeMachineOutputsGrpcRequest { cursor: qs[i].cursor, close_end: qs[i].close_end, ..qs[0] }) by {
        lemma_time_machine_outputs_grpc_request_at(qs, pages, i);
    }
}

} // verus!

