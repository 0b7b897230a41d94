use std::collections::VecDeque;
use mathilde_sdk_rs::sdk_core::error::SdkError;
use mathilde_sdk_rs::streaming::make_before_break::{
    candidate_step, remaining_window, CandidateEvent, CandidateStep, MakeBeforeBreakConfig,
    SwapState,
};
use mathilde_sdk_rs::streaming::subscription::{
    recovery_exhausted, BackoffDelay, BackoffStep, ExponentialBackoffConfig, ReconnectBackoff,
};

fn config(max_attempts: Option<u32>) -> ExponentialBackoffConfig {
    ExponentialBackoffConfig {
        initial_delay_nanos: 250_000_000,
        multiplier: 2,
        max_delay_nanos: 1_000_000_000,
        max_attempts,
        jitter_ratio_bits: 0.0f64.to_bits(),
    }
}

#[test]
fn backoff_doubles_up_to_the_maximum() {
    let mut b = ReconnectBackoff::new(config(None)).unwrap();
    let delays: Vec<u128> = (0..5).map(|_| b.next_delay().unwrap().base_delay_nanos).collect();
    assert_eq!(delays, vec![250_000_000, 500_000_000, 1_000_000_000, 1_000_000_000, 1_000_000_000]);
    assert_eq!(b.next_attempt(), 6);
}

#[test]
fn backoff_stops_after_max_attempts_and_reset_restarts() {
    let mut b = ReconnectBackoff::new(config(Some(2))).unwrap();
    assert_eq!(b.next_delay().unwrap().attempt, 1);
    assert_eq!(b.next_delay().unwrap().attempt, 2);
    assert!(b.next_delay().is_none());
    assert!(b.next_delay().is_none());
    b.reset();
    assert_eq!(b.next_attempt(), 1);
    assert_eq!(b.next_delay().unwrap().base_delay_nanos, 250_000_000);
}

#[test]
fn backoff_config_problems() {
    let mut c = config(None);
    c.initial_delay_nanos = 0;
    match c.validate() {
        Err(SdkError::RequestBuild { message }) => {
            assert_eq!(message, "ws recovery initial_delay must be > 0")
        }
        other => panic!("unexpected {:?}", other),
    }
    let mut c = config(None);
    c.max_delay_nanos = 1;
    assert!(c.validate().is_err());
    let mut c = config(None);
    c.jitter_ratio_bits = 1.5f64.to_bits();
    match c.validate() {
        Err(SdkError::RequestBuild { message }) => {
            assert_eq!(message, "ws recovery jitter_ratio must be in [0.0, 1.0]")
        }
        other => panic!("unexpected {:?}", other),
    }
    let mut c = config(None);
    c.jitter_ratio_bits = 1.0f64.to_bits();
    assert!(c.validate().is_ok());
    assert!(ExponentialBackoffConfig::default_config().validate().is_ok());
}

#[test]
fn jittered_delay_stays_in_bounds() {
    let d = BackoffDelay::with_spread(BackoffStep { attempt: 1, base_delay_nanos: 1000 }, 200);
    assert_eq!((d.min_delay_nanos, d.max_delay_nanos), (800, 1200));
    for seed in [0u128, 1, 399, 400, 401, 123_456_789] {
        let picked = d.select_delay(seed);
        assert!(picked >= 800 && picked <= 1200);
    }
    assert_eq!(d.select_delay(0), 800);
    assert_eq!(d.select_delay(400), 1200);
    let none = BackoffDelay::with_spread(BackoffStep { attempt: 1, base_delay_nanos: 1000 }, 0);
    assert_eq!(none.select_delay(77), 1000);
}

#[test]
fn exhausted_recovery_message() {
    match recovery_exhausted("bars ws connection closed", "bars") {
        SdkError::WsTransport { message } => assert_eq!(
            message,
            "bars ws connection closed; ws recovery attempts exhausted for bars"
        ),
        other => panic!("unexpected {:?}", other),
    }
}

#[test]
fn swap_state_delivers_buffered_frames_first() {
    let mut s: SwapState<&str, u32> = SwapState::new("old");
    assert!(!s.swap_in_progress());
    s.begin_swap("bars ws").unwrap();
    match s.begin_swap("bars ws") {
        Err(SdkError::RequestBuild { message }) => {
            assert_eq!(message, "bars ws make-before-break swap already in progress")
        }
        other => panic!("unexpected {:?}", other),
    }
    let frames: VecDeque<u32> = vec![1, 2].into_iter().collect();
    s.promote(Ok(("new", frames))).unwrap();
    assert_eq!(*s.active_request(), "new");
    assert!(!s.swap_in_progress());
    assert_eq!(s.take_buffered(), Some(1));
    assert_eq!(s.take_buffered(), Some(2));
    assert_eq!(s.take_buffered(), None);
}

#[test]
fn failed_swap_keeps_the_active_stream() {
    let mut s: SwapState<&str, u32> = SwapState::new("old");
    s.begin_swap("outputs ws").unwrap();
    assert!(s.promote(Err(SdkError::WsTransport { message: "x".to_string() })).is_err());
    assert_eq!(*s.active_request(), "old");
    assert!(!s.swap_in_progress());
}

#[test]
fn candidate_validation_steps() {
    assert!(matches!(candidate_step::<u32>(CandidateEvent::WindowElapsed, "bars ws"), CandidateStep::Accept));
    assert!(matches!(candidate_step(CandidateEvent::Frame(5u32), "bars ws"), CandidateStep::Buffer(5)));
    match candidate_step::<u32>(
        CandidateEvent::ErrorFrame { kind: "auth".to_string(), error: "denied".to_string() },
        "bars ws",
    ) {
        CandidateStep::Reject(SdkError::WsTransport { message }) => {
            assert_eq!(message, "bars ws candidate validation failed: auth: denied")
        }
        _ => panic!("expected a rejection"),
    }
    match candidate_step::<u32>(CandidateEvent::Closed, "bars ws") {
        CandidateStep::Reject(SdkError::WsTransport { message }) => {
            assert_eq!(message, "bars ws candidate closed during validation window")
        }
        _ => panic!("expected a rejection"),
    }
    assert_eq!(remaining_window(3, 10), Some(7));
    assert_eq!(remaining_window(10, 10), None);
    assert_eq!(MakeBeforeBreakConfig::default_config().validation_window_nanos, 2_000_000_000);
}

#[test]
fn jitter_bounds_are_held_as_a_duration_holds_them() {
    let max = u64::MAX as u128 * 1_000_000_000 + 999_999_999;
    let d = BackoffDelay::with_spread(BackoffStep { attempt: 1, base_delay_nanos: max }, 1);
    assert_eq!(d.min_delay_nanos, max - 1);
    assert_eq!(d.max_delay_nanos, u64::MAX as u128 * 1_000_000_000);
    assert!(d.max_delay_nanos <= max);
}
