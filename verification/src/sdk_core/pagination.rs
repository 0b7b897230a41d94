//! Cursor traversal bookkeeping: a page budget and a guard against a
//! cursor that repeats without progress.
use vstd::prelude::*;
use crate::sdk_core::error::SdkError;
use crate::sdk_core::time::TimeInput;

verus! {

/// The page budget of a traversal unless another is given.
pub const DEFAULT_TRAVERSE_MAX_PAGES: usize = 10_000;

/// What a traversal does after a page.
#[derive(Debug, Clone, PartialEq, Eq)]
pub enum PaginationAdvance {
    Continue { cursor: String },
    Finished,
}

/// Pages fetched so far, the budget, and the last cursor handed out.
#[derive(Debug, PartialEq, Eq)]
pub struct PaginationState {
    pages_fetched: usize,
    max_pages: usize,
    last_cursor: Option<String>,
}

/// The mathematical state of a traversal.
pub struct PaginationStateView {
    pub pages_fetched: nat,
    pub max_pages: nat,
    pub last_cursor: Option<Seq<char>>,
}

/// How a page ends, as a value: the next state and the outcome
/// (`Ok(Some(cursor))` to continue, `Ok(None)` when finished,
/// `Err(())` when refused).
pub open spec fn advance_step(
    s: PaginationStateView,
    next_cursor: Option<Seq<char>>,
    done: bool,
) -> (PaginationStateView, Result<Option<Seq<char>>, ()>) {
    if s.pages_fetched >= s.max_pages {
        (s, Err(()))
    } else {
        let s1 = PaginationStateView { pages_fetched: s.pages_fetched + 1, ..s };
        if done {
            (s1, Ok(None))
        } else {
            match next_cursor {
                None => (s1, Ok(None)),
                Some(c) => if s.last_cursor == Some(c) {
                    (s1, Err(()))
                } else {
                    (PaginationStateView { last_cursor: Some(c), ..s1 }, Ok(Some(c)))
                },
            }
        }
    }
}

/// The outcome of `advance` as a value.
pub open spec fn advance_outcome(r: Result<PaginationAdvance, SdkError>) -> Result<
    Option<Seq<char>>,
    (),
> {
    match r {
        Ok(PaginationAdvance::Continue { cursor }) => Ok(Some(cursor@)),
        Ok(PaginationAdvance::Finished) => Ok(None),
        Err(_) => Err(()),
    }
}

pub open spec fn opt_view(o: Option<&str>) -> Option<Seq<char>> {
    match o {
        Some(s) => Some(s@),
        None => None,
    }
}

impl View for PaginationState {
    type V = PaginationStateView;

    closed spec fn view(&self) -> PaginationStateView {
        PaginationStateView {
            pages_fetched: self.pages_fetched as nat,
            max_pages: self.max_pages as nat,
            last_cursor: match self.last_cursor {
                Some(c) => Some(c@),
                None => None,
            },
        }
    }
}

impl Clone for PaginationState {
    /// The same state: the counts and the last cursor.
    fn clone(&self) -> (r: Self)
        ensures
            r@ == self@,
    {
        proof {
            use_type_invariant(self);
        }
        let last_cursor = match &self.last_cursor {
            Some(c) => Some(c.clone()),
            None => None,
        };
        PaginationState { pages_fetched: self.pages_fetched, max_pages: self.max_pages, last_cursor }
    }
}

impl Default for PaginationState {
    /// A fresh traversal with the default budget, as `new` gives.
    fn default() -> (r: Self)
        ensures
            r@.pages_fetched == 0,
            r@.max_pages == DEFAULT_TRAVERSE_MAX_PAGES,
            r@.last_cursor is None,
    {
        Self::new()
    }
}

impl PaginationState {
    /// The fetched pages stay within the budget.
    #[verifier::type_invariant]
    spec fn within_budget(&self) -> bool {
        self.pages_fetched <= self.max_pages
    }

    /// A fresh traversal with the default budget.
    pub fn new() -> (r: Self)
        ensures
            r@.pages_fetched == 0,
            r@.max_pages == DEFAULT_TRAVERSE_MAX_PAGES,
            r@.last_cursor is None,
    {
        Self::with_max_pages(DEFAULT_TRAVERSE_MAX_PAGES)
    }

    /// A fresh traversal with `max_pages` as its budget.
    pub fn with_max_pages(max_pages: usize) -> (r: Self)
        ensures
            r@.pages_fetched == 0,
            r@.max_pages == max_pages,
            r@.last_cursor is None,
    {
        PaginationState { pages_fetched: 0, max_pages, last_cursor: None }
    }

    pub fn pages_fetched(&self) -> (r: usize)
        ensures
            r == self@.pages_fetched,
            r <= self@.max_pages,
    {
        proof {
            use_type_invariant(self);
        }
        self.pages_fetched
    }

    pub fn max_pages(&self) -> (r: usize)
        ensures
            r == self@.max_pages,
    {
        self.max_pages
    }

    /// Records one fetched page. Refused when the budget is spent (the state
    /// stays as it was) or when the next cursor equals the last one handed
    /// out; finished when the page is done or carries no cursor.
    pub fn advance(&mut self, next_cursor: Option<&str>, done: bool) -> (r: Result<
        PaginationAdvance,
        SdkError,
    >)
        ensures
            final(self)@ == advance_step(old(self)@, opt_view(next_cursor), done).0,
            advance_outcome(r) == advance_step(old(self)@, opt_view(next_cursor), done).1,
            final(self)@.pages_fetched <= final(self)@.max_pages,
            r is Err ==> r matches Err(SdkError::ContractDrift { .. }),
    {
        proof {
            use_type_invariant(&*self);
        }
        if self.pages_fetched >= self.max_pages {
            let count = self.max_pages.to_string();
            let message = String::from_str("traversal page budget exhausted at ").concat(
                count.as_str(),
            ).concat(" pages");
            return Err(SdkError::contract_drift(message));
        }
        self.pages_fetched = self.pages_fetched + 1;
        if done {
            return Ok(PaginationAdvance::Finished);
        }
        let cursor = match next_cursor {
            None => {
                return Ok(PaginationAdvance::Finished);
            },
            Some(c) => c,
        };
        let repeated = match &self.last_cursor {
            Some(last) => str_eq(last.as_str(), cursor),
            None => false,
        };
        if repeated {
            let message = String::from_str("cursor repeated without progress: ").concat(cursor);
            return Err(SdkError::contract_drift(message));
        }
        let owned = String::from_str(cursor);
        self.last_cursor = Some(owned.clone());
        Ok(PaginationAdvance::Continue { cursor: owned })
    }
}

/// Whether two strings hold the same characters.
pub fn str_eq(a: &str, b: &str) -> (r: bool)
    ensures
        r == (a@ == b@),
{
    let va = crate::sdk_core::text::str_chars(a);
    let vb = crate::sdk_core::text::str_chars(b);
    if va.len() != vb.len() {
        return false;
    }
    let mut i: usize = 0;
    while i < va.len()
        invariant
            va@ == a@,
            vb@ == b@,
            va.len() == vb.len(),
            i <= va.len(),
            forall|j: int| 0 <= j < i ==> a@[j] == b@[j],
        decreases va.len() - i,
    {
        if va[i] != vb[i] {
            return false;
        }
        i = i + 1;
    }
    assert(a@ =~= b@);
    true
}

/// Ok when `close_end` is given; traversals of search and time-machine
/// pages need an explicit end.
pub fn require_explicit_close_end<T>(close_end: Option<&T>, endpoint_name: &str) -> (r: Result<
    (),
    SdkError,
>)
    ensures
        r is Ok <==> close_end is Some,
        r is Err ==> (r matches Err(SdkError::UnsupportedOrUnprovedUsage { message })
            && message@ == endpoint_name@ + " traversal requires explicit close_end"@),
{
    if close_end.is_some() {
        return Ok(());
    }
    Err(
        SdkError::unsupported_or_unproved_usage(
            String::from_str(endpoint_name).concat(" traversal requires explicit close_end"),
        ),
    )
}


/// The request's end after a page: an omitted end is frozen to the page's
/// when the traversal freezes it.
pub open spec fn frozen_close_end(close_end: Option<TimeInput>, freeze: bool, close_end_ms: i64) -> Option<
    TimeInput,
> {
    if freeze && close_end is None {
        Some(TimeInput::Ms(close_end_ms))
    } else {
        close_end
    }
}

/// The state after a run of pages, each given by its next cursor and done
/// flag, taken one after another.
pub open spec fn run_state(s: PaginationStateView, pages: Seq<(Option<Seq<char>>, bool)>) -> PaginationStateView
    decreases pages.len(),
{
    if pages.len() == 0 {
        s
    } else {
        run_state(advance_step(s, pages[0].0, pages[0].1).0, pages.skip(1))
    }
}

/// Whether every page of a run is taken: each is accepted, and each but
/// the last hands out a cursor to go on with.
pub open spec fn run_accepted(s: PaginationStateView, pages: Seq<(Option<Seq<char>>, bool)>) -> bool
    decreases pages.len(),
{
    if pages.len() == 0 {
        true
    } else {
        let o = advance_step(s, pages[0].0, pages[0].1).1;
        &&& o is Ok
        &&& (pages.len() > 1 ==> (o matches Ok(Some(_))))
        &&& run_accepted(advance_step(s, pages[0].0, pages[0].1).0, pages.skip(1))
    }
}

/// A run of taken pages counts each page once and stays within the
/// budget: from a fresh traversal, `k` taken pages leave `k` pages fetched,
/// and `k` is at most the budget.
pub proof fn law_run_counts_each_page(s: PaginationStateView, pages: Seq<(Option<Seq<char>>, bool)>)
    requires
        s.pages_fetched <= s.max_pages,
        run_accepted(s, pages),
    ensures
        run_state(s, pages).pages_fetched == s.pages_fetched + pages.len(),
        run_state(s, pages).pages_fetched <= s.max_pages,
        run_state(s, pages).max_pages == s.max_pages,
    decreases pages.len(),
{
    if pages.len() > 0 {
        let s1 = advance_step(s, pages[0].0, pages[0].1).0;
        law_run_counts_each_page(s1, pages.skip(1));
    }
}

/// One page taken by a pager that is `finished` or not: once finished,
/// nothing changes; otherwise the state advances, and the pager finishes
/// when the page ends the traversal.
pub open spec fn pager_step(s: PaginationStateView, finished: bool, page: (Option<Seq<char>>, bool)) -> (
    PaginationStateView,
    bool,
) {
    if finished {
        (s, true)
    } else {
        (advance_step(s, page.0, page.1).0, advance_step(s, page.0, page.1).1 == Ok::<Option<Seq<char>>, ()>(None))
    }
}

/// A pager's state and whether it has finished after a run of pages.
pub open spec fn pager_run(s: PaginationStateView, finished: bool, pages: Seq<(Option<Seq<char>>, bool)>) -> (
    PaginationStateView,
    bool,
)
    decreases pages.len(),
{
    if pages.len() == 0 {
        (s, finished)
    } else {
        let next = pager_step(s, finished, pages[0]);
        pager_run(next.0, next.1, pages.skip(1))
    }
}

/// Whether a run of pages is a whole traversal: every page but the last
/// hands out a cursor to go on with, and the last ends the traversal.
pub open spec fn run_ends(s: PaginationStateView, pages: Seq<(Option<Seq<char>>, bool)>) -> bool
    decreases pages.len(),
{
    if pages.len() == 0 {
        false
    } else if pages.len() == 1 {
        advance_step(s, pages[0].0, pages[0].1).1 == Ok::<Option<Seq<char>>, ()>(None)
    } else {
        &&& (advance_step(s, pages[0].0, pages[0].1).1 matches Ok(Some(_)))
        &&& run_ends(advance_step(s, pages[0].0, pages[0].1).0, pages.skip(1))
    }
}

proof fn lemma_run_ends_accepted(s: PaginationStateView, pages: Seq<(Option<Seq<char>>, bool)>)
    requires
        run_ends(s, pages),
    ensures
        run_accepted(s, pages),
        pager_run(s, false, pages) == (run_state(s, pages), true),
    decreases pages.len(),
{
    let s1 = advance_step(s, pages[0].0, pages[0].1).0;
    let rest = pages.skip(1);
    if pages.len() == 1 {
        assert(rest.len() == 0);
        assert(run_accepted(s1, rest));
        assert(run_state(s1, rest) == s1);
        assert(pager_run(s1, true, rest) == (s1, true));
        assert(pager_step(s, false, pages[0]) == (s1, true));
    } else {
        lemma_run_ends_accepted(s1, rest);
        assert(pager_step(s, false, pages[0]) == (s1, false));
    }
    assert(run_state(s, pages) == run_state(s1, rest));
    assert(pager_run(s, false, pages) == pager_run(s1, pager_step(s, false, pages[0]).1, rest));
}

proof fn lemma_finished_pager_stays(s: PaginationStateView, pages: Seq<(Option<Seq<char>>, bool)>)
    ensures
        pager_run(s, true, pages) == (s, true),
    decreases pages.len(),
{
    if pages.len() > 0 {
        lemma_finished_pager_stays(s, pages.skip(1));
    }
}

proof fn lemma_pager_run_append(
    s: PaginationStateView,
    finished: bool,
    a: Seq<(Option<Seq<char>>, bool)>,
    b: Seq<(Option<Seq<char>>, bool)>,
)
    ensures
        pager_run(s, finished, a + b) == pager_run(pager_run(s, finished, a).0, pager_run(s, finished, a).1, b),
    decreases a.len(),
{
    if a.len() == 0 {
        assert(a + b =~= b);
    } else {
        let next = pager_step(s, finished, a[0]);
        assert((a + b).skip(1) =~= a.skip(1) + b);
        assert((a + b)[0] == a[0]);
        lemma_pager_run_append(next.0, next.1, a.skip(1), b);
    }
}

/// Along a whole traversal, the page at `i` is taken from the state the
/// pages before it left: every page but the last hands out a cursor, and
/// the last ends the traversal.
pub proof fn lemma_run_ends_at(s: PaginationStateView, pages: Seq<(Option<Seq<char>>, bool)>, i: int)
    requires
        run_ends(s, pages),
        0 <= i < pages.len(),
    ensures
        ({
            let si = run_state(s, pages.subrange(0, i));
            let o = advance_step(si, pages[i].0, pages[i].1).1;
            &&& (i < pages.len() - 1 ==> (o matches Ok(Some(_))))
            &&& (i == pages.len() - 1 ==> o == Ok::<Option<Seq<char>>, ()>(None))
            &&& run_state(s, pages.subrange(0, i + 1)) == advance_step(si, pages[i].0, pages[i].1).0
        }),
    decreases i,
{
    let s1 = advance_step(s, pages[0].0, pages[0].1).0;
    let rest = pages.skip(1);
    if i == 0 {
        assert(pages.subrange(0, 0).len() == 0);
        let one = pages.subrange(0, 1);
        assert(one[0] == pages[0]);
        assert(one.skip(1).len() == 0);
        assert(run_state(s1, one.skip(1)) == s1);
    } else {
        lemma_run_ends_at(s1, rest, i - 1);
        let a = pages.subrange(0, i);
        let b = pages.subrange(0, i + 1);
        assert(a[0] == pages[0] && b[0] == pages[0]);
        assert(a.skip(1) =~= rest.subrange(0, i - 1));
        assert(b.skip(1) =~= rest.subrange(0, i));
        assert(rest[i - 1] == pages[i]);
    }
}

/// A whole traversal counts each of its pages once and stays within the
/// budget.
pub proof fn law_whole_traversal_counts(s: PaginationStateView, pages: Seq<(Option<Seq<char>>, bool)>)
    requires
        s.pages_fetched <= s.max_pages,
        run_ends(s, pages),
    ensures
        run_state(s, pages).pages_fetched == s.pages_fetched + pages.len(),
        run_state(s, pages).pages_fetched <= s.max_pages,
{
    lemma_run_ends_accepted(s, pages);
    law_run_counts_each_page(s, pages);
}

/// A whole traversal of `k` pages from a fresh pager counts `k` pages, `k`
/// is at most the budget, and the pager has finished: any pages after that
/// change nothing.
pub proof fn law_pager_counts_whole_traversal(
    max_pages: nat,
    pages: Seq<(Option<Seq<char>>, bool)>,
    later: Seq<(Option<Seq<char>>, bool)>,
)
    requires
        run_ends(PaginationStateView { pages_fetched: 0, max_pages, last_cursor: None }, pages),
    ensures
        ({
            let s0 = PaginationStateView { pages_fetched: 0, max_pages, last_cursor: None };
            &&& pager_run(s0, false, pages + later).1
            &&& pager_run(s0, false, pages + later).0 == pager_run(s0, false, pages).0
            &&& pager_run(s0, false, pages).0.pages_fetched == pages.len()
            &&& pages.len() <= max_pages
        }),
{
    let s0 = PaginationStateView { pages_fetched: 0, max_pages, last_cursor: None };
    lemma_run_ends_accepted(s0, pages);
    law_run_counts_each_page(s0, pages);
    lemma_pager_run_append(s0, false, pages, later);
    lemma_finished_pager_stays(run_state(s0, pages), later);
}

/// A traversal never fetches more pages than its budget allows.
pub proof fn law_pages_within_budget(s: PaginationStateView, next_cursor: Option<Seq<char>>, done: bool)
    requires
        s.pages_fetched <= s.max_pages,
    ensures
        advance_step(s, next_cursor, done).0.pages_fetched <= advance_step(s, next_cursor, done).0.max_pages,
        advance_step(s, next_cursor, done).0.max_pages == s.max_pages,
{
}

/// A page taken within the budget counts once, whatever it carries.
pub proof fn law_accepted_page_counts_once(s: PaginationStateView, next_cursor: Option<Seq<char>>, done: bool)
    requires
        s.pages_fetched < s.max_pages,
    ensures
        advance_step(s, next_cursor, done).0.pages_fetched == s.pages_fetched + 1,
{
}

/// Once the budget is spent, a page is refused and the state is unchanged.
pub proof fn law_spent_budget_refuses(s: PaginationStateView, next_cursor: Option<Seq<char>>, done: bool)
    requires
        s.pages_fetched >= s.max_pages,
    ensures
        advance_step(s, next_cursor, done).0 == s,
        advance_step(s, next_cursor, done).1 is Err,
{
}

/// A cursor equal to the last one handed out is refused: no traversal
/// loops on one page.
pub proof fn law_repeated_cursor_refused(s: PaginationStateView, cursor: Seq<char>)
    requires
        s.pages_fetched < s.max_pages,
        s.last_cursor == Some(cursor),
    ensures
        advance_step(s, Some(cursor), false).1 is Err,
{
}

/// A page that is done, or carries no cursor, ends the traversal.
pub proof fn law_last_page_finishes(s: PaginationStateView, next_cursor: Option<Seq<char>>, done: bool)
    requires
        s.pages_fetched < s.max_pages,
        done || next_cursor is None,
    ensures
        advance_step(s, next_cursor, done).1 == Ok::<Option<Seq<char>>, ()>(None),
{
}

/// A new cursor continues the traversal and becomes the one to compare the
/// next against.
pub proof fn law_new_cursor_continues(s: PaginationStateView, cursor: Seq<char>)
    requires
        s.pages_fetched < s.max_pages,
        s.last_cursor != Some(cursor),
    ensures
        advance_step(s, Some(cursor), false).1 == Ok::<Option<Seq<char>>, ()>(Some(cursor)),
        advance_step(s, Some(cursor), false).0.last_cursor == Some(cursor),
{
}

/// An omitted end, once frozen to the first page's, stays what it was
/// frozen to; a given end is never replaced.
pub proof fn law_frozen_close_end_is_kept(close_end: Option<TimeInput>, first_ms: i64, later_ms: i64)
    ensures
        frozen_close_end(frozen_close_end(close_end, true, first_ms), true, later_ms) == frozen_close_end(
            close_end,
            true,
            first_ms,
        ),
        close_end is Some ==> frozen_close_end(close_end, true, first_ms) == close_end,
        close_end is None ==> frozen_close_end(close_end, true, first_ms) == Some(TimeInput::Ms(first_ms)),
{
}

} // verus!
