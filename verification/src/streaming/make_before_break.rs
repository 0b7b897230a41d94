//! Make-before-break: a candidate subscription is validated before it
//! replaces the active one.
use vstd::prelude::*;
use std::collections::VecDeque;
use crate::sdk_core::error::SdkError;

verus! {

/// How long a candidate stream must stay healthy before it takes over.
#[derive(Debug, Clone, Copy, PartialEq, Eq)]
pub struct MakeBeforeBreakConfig {
    pub validation_window_nanos: u128,
}

impl MakeBeforeBreakConfig {
    /// Two seconds.
    pub fn default_config() -> (r: Self)
        ensures
            r.validation_window_nanos == 2_000_000_000,
    {
        MakeBeforeBreakConfig { validation_window_nanos: 2_000_000_000 }
    }
}


/// What a make-before-break stream decides by: the active subscription,
/// frames buffered for delivery before live ones, and whether a candidate
/// is being validated.
#[derive(Debug)]
pub struct SwapState<R, F> {
    active_request: R,
    active_buffer: VecDeque<F>,
    swap_pending: bool,
}

impl<R, F> SwapState<R, F> {
    pub closed spec fn spec_active_request(&self) -> R {
        self.active_request
    }

    pub closed spec fn spec_buffer(&self) -> Seq<F> {
        self.active_buffer@
    }

    pub closed spec fn spec_swap_pending(&self) -> bool {
        self.swap_pending
    }

    /// The state of a freshly connected stream.
    pub fn new(active_request: R) -> (r: Self)
        ensures
            r.spec_active_request() == active_request,
            r.spec_buffer().len() == 0,
            !r.spec_swap_pending(),
    {
        SwapState { active_request, active_buffer: VecDeque::new(), swap_pending: false }
    }

    pub fn active_request(&self) -> (r: &R)
        ensures
            *r == self.spec_active_request(),
    {
        &self.active_request
    }

    pub fn swap_in_progress(&self) -> (r: bool)
        ensures
            r == self.spec_swap_pending(),
    {
        self.swap_pending
    }

    /// Starts validating a candidate; refused while another is pending, with
    /// a message naming the `stream`.
    pub fn begin_swap(&mut self, stream: &str) -> (r: Result<(), SdkError>)
        ensures
            old(self).spec_swap_pending() ==> (r matches Err(SdkError::RequestBuild { message })
                && message@ == stream@ + " make-before-break swap already in progress"@
                && final(self).spec_swap_pending()),
            !old(self).spec_swap_pending() ==> (r is Ok && final(self).spec_swap_pending()),
            final(self).spec_active_request() == old(self).spec_active_request(),
            final(self).spec_buffer() == old(self).spec_buffer(),
    {
        if self.swap_pending {
            return Err(
                SdkError::request_build(
                    String::from_str(stream).concat(" make-before-break swap already in progress"),
                ),
            );
        }
        self.swap_pending = true;
        Ok(())
    }

    /// The oldest buffered frame, if any.
    pub fn take_buffered(&mut self) -> (r: Option<F>)
        ensures
            old(self).spec_buffer().len() == 0 ==> (r is None && final(self).spec_buffer() == old(
                self,
            ).spec_buffer()),
            old(self).spec_buffer().len() > 0 ==> (r == Some(old(self).spec_buffer()[0])
                && final(self).spec_buffer() == old(self).spec_buffer().drop_first()),
            final(self).spec_active_request() == old(self).spec_active_request(),
            final(self).spec_swap_pending() == old(self).spec_swap_pending(),
    {
        self.active_buffer.pop_front()
    }

    /// Takes in the outcome of a finished validation: a validated candidate
    /// becomes active with the frames it buffered; a failed one is reported.
    /// Either way no swap is pending afterwards.
    pub fn promote(&mut self, outcome: Result<(R, VecDeque<F>), SdkError>) -> (r: Result<(), SdkError>)
        ensures
            !final(self).spec_swap_pending(),
            match outcome {
                Ok((req, frames)) => r is Ok && final(self).spec_active_request() == req
                    && final(self).spec_buffer() == frames@,
                Err(e) => r == Err::<(), SdkError>(e) && final(self).spec_active_request() == old(
                    self,
                ).spec_active_request() && final(self).spec_buffer() == old(self).spec_buffer(),
            },
    {
        self.swap_pending = false;
        match outcome {
            Ok((req, frames)) => {
                self.active_request = req;
                self.active_buffer = frames;
                Ok(())
            },
            Err(e) => Err(e),
        }
    }
}


/// What happened while a candidate stream was being validated.
#[derive(Debug)]
pub enum CandidateEvent<F> {
    /// The validation window ran out with the stream healthy.
    WindowElapsed,
    /// A data or meta frame arrived.
    Frame(F),
    /// The service sent an error frame.
    ErrorFrame { kind: String, error: String },
    /// The stream closed.
    Closed,
    /// Receiving failed.
    Failed(SdkError),
}

/// What validation does next.
#[derive(Debug)]
pub enum CandidateStep<F> {
    /// The candidate is healthy: it takes over with what it buffered.
    Accept,
    /// Keep the frame for delivery after the swap, and keep validating.
    Buffer(F),
    /// The candidate is refused.
    Reject(SdkError),
}

/// The time left of the validation window, or `None` once it has run out.
pub fn remaining_window(elapsed_nanos: u128, window_nanos: u128) -> (r: Option<u128>)
    ensures
        elapsed_nanos >= window_nanos ==> r is None,
        elapsed_nanos < window_nanos ==> r == Some((window_nanos - elapsed_nanos) as u128),
{
    if elapsed_nanos >= window_nanos {
        None
    } else {
        Some(window_nanos - elapsed_nanos)
    }
}

/// The next step of validating a candidate stream named `stream_name`:
/// frames are buffered, the window running out accepts it, and an error
/// frame, a close or a receive failure refuses it.
pub fn candidate_step<F>(event: CandidateEvent<F>, stream_name: &str) -> (r: CandidateStep<F>)
    ensures
        match event {
            CandidateEvent::WindowElapsed => r is Accept,
            CandidateEvent::Frame(f) => r matches CandidateStep::Buffer(g) && g == f,
            CandidateEvent::ErrorFrame { kind, error } => r matches CandidateStep::Reject(
                SdkError::WsTransport { message },
            ) && message@ == stream_name@ + " candidate validation failed: "@ + kind@ + ": "@ + error@,
            CandidateEvent::Closed => r matches CandidateStep::Reject(SdkError::WsTransport { message })
                && message@ == stream_name@ + " candidate closed during validation window"@,
            CandidateEvent::Failed(e) => r matches CandidateStep::Reject(x) && x == e,
        },
{
    match event {
        CandidateEvent::WindowElapsed => CandidateStep::Accept,
        CandidateEvent::Frame(f) => CandidateStep::Buffer(f),
        CandidateEvent::ErrorFrame { kind, error } => CandidateStep::Reject(
            SdkError::ws_transport(
                String::from_str(stream_name).concat(" candidate validation failed: ").concat(
                    kind.as_str(),
                ).concat(": ").concat(error.as_str()),
            ),
        ),
        CandidateEvent::Closed => CandidateStep::Reject(
            SdkError::ws_transport(
                String::from_str(stream_name).concat(" candidate closed during validation window"),
            ),
        ),
        CandidateEvent::Failed(e) => CandidateStep::Reject(e),
    }
}

} // verus!
