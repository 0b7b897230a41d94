//! Reconnect schedules: bounded exponential backoff with jitter bounds.
//! Durations are counted in nanoseconds; a jitter ratio is carried as the
//! IEEE-754 bits of its `f64`.
use vstd::prelude::*;
use crate::sdk_core::error::SdkError;

verus! {

/// Nanoseconds in a second.
pub const NANOS_PER_SEC: u128 = 1_000_000_000;

/// How a recovering stream waits between reconnects.
#[derive(Debug, Clone, Copy, PartialEq, Eq)]
pub struct ExponentialBackoffConfig {
    pub initial_delay_nanos: u128,
    pub multiplier: u32,
    pub max_delay_nanos: u128,
    pub max_attempts: Option<u32>,
    /// The bits of the `f64` jitter ratio.
    pub jitter_ratio_bits: u64,
}

/// Whether the `f64` with these bits lies in `[0.0, 1.0]`: the positive
/// doubles up to 1.0 are exactly the bit patterns up to `0x3ff0...0`, and
/// `-0.0` equals `0.0`.
pub open spec fn jitter_ratio_in_unit_interval(bits: u64) -> bool {
    bits <= 0x3ff0_0000_0000_0000 || bits == 0x8000_0000_0000_0000
}

/// The bits of the `f64` 0.2.
pub const DEFAULT_JITTER_RATIO_BITS: u64 = 0x3fc9_9999_9999_999a;

/// The message `validate` gives for `c`, or `None` when `c` is valid.
pub open spec fn backoff_config_problem(c: ExponentialBackoffConfig) -> Option<Seq<char>> {
    if c.initial_delay_nanos == 0 {
        Some("ws recovery initial_delay must be > 0"@)
    } else if c.multiplier < 1 {
        Some("ws recovery multiplier must be >= 1"@)
    } else if c.max_delay_nanos < c.initial_delay_nanos {
        Some("ws recovery max_delay must be >= initial_delay"@)
    } else if !jitter_ratio_in_unit_interval(c.jitter_ratio_bits) {
        Some("ws recovery jitter_ratio must be in [0.0, 1.0]"@)
    } else {
        None
    }
}

impl ExponentialBackoffConfig {
    /// The configuration back when it is usable; else the first problem.
    pub fn validate(self) -> (r: Result<Self, SdkError>)
        ensures
            match backoff_config_problem(self) {
                None => r == Ok::<Self, SdkError>(self),
                Some(m) => r matches Err(SdkError::RequestBuild { message }) && message@ == m,
            },
    {
        if self.initial_delay_nanos == 0 {
            return Err(SdkError::request_build(String::from_str("ws recovery initial_delay must be > 0")));
        }
        if self.multiplier < 1 {
            return Err(SdkError::request_build(String::from_str("ws recovery multiplier must be >= 1")));
        }
        if self.max_delay_nanos < self.initial_delay_nanos {
            return Err(
                SdkError::request_build(
                    String::from_str("ws recovery max_delay must be >= initial_delay"),
                ),
            );
        }
        if !(self.jitter_ratio_bits <= 0x3ff0_0000_0000_0000 || self.jitter_ratio_bits
            == 0x8000_0000_0000_0000) {
            return Err(
                SdkError::request_build(
                    String::from_str("ws recovery jitter_ratio must be in [0.0, 1.0]"),
                ),
            );
        }
        Ok(self)
    }

    /// 250 ms initially, doubling, at most 10 s, without an attempt limit,
    /// with a jitter ratio of 0.2.
    pub fn default_config() -> (r: Self)
        ensures
            r.initial_delay_nanos == 250_000_000,
            r.multiplier == 2,
            r.max_delay_nanos == 10_000_000_000,
            r.max_attempts is None,
            r.jitter_ratio_bits == DEFAULT_JITTER_RATIO_BITS,
            backoff_config_problem(r) is None,
    {
        ExponentialBackoffConfig {
            initial_delay_nanos: 250_000_000,
            multiplier: 2,
            max_delay_nanos: 10_000_000_000,
            max_attempts: None,
            jitter_ratio_bits: DEFAULT_JITTER_RATIO_BITS,
        }
    }
}

/// A nanosecond count as a `Duration` holds it: whole seconds saturate at
/// `u64::MAX`.
pub open spec fn duration_clamp(n: nat) -> nat {
    let secs = if n / 1_000_000_000 > u64::MAX { u64::MAX as nat } else { n / 1_000_000_000 };
    secs * 1_000_000_000 + n % 1_000_000_000
}

/// The longest delay a `Duration` can hold, in nanoseconds.
pub open spec fn duration_max_nanos() -> nat {
    u64::MAX as nat * 1_000_000_000 + 999_999_999
}

/// `d * m`, saturating at `u128::MAX`, then held as a `Duration`.
pub open spec fn saturating_mul_nanos(d: nat, m: nat) -> nat {
    let p = d * m;
    duration_clamp(if p > u128::MAX { u128::MAX as nat } else { p })
}

/// The delay reached from `d` after `steps` multiplications, stopping at
/// `max` as soon as it is reached.
pub open spec fn grow_delay(d: nat, m: nat, max: nat, steps: nat) -> nat
    decreases steps,
{
    if steps == 0 {
        if d < max { d } else { max }
    } else {
        let d2 = saturating_mul_nanos(d, m);
        if d2 >= max {
            max
        } else {
            grow_delay(d2, m, max, (steps - 1) as nat)
        }
    }
}

/// The delay before the reconnect numbered `attempt` (from 1).
pub open spec fn base_delay_spec(c: ExponentialBackoffConfig, attempt: nat) -> nat {
    grow_delay(
        c.initial_delay_nanos as nat,
        c.multiplier as nat,
        c.max_delay_nanos as nat,
        if attempt >= 1 { (attempt - 1) as nat } else { 0 },
    )
}

/// One scheduled reconnect: its number and its delay before jitter.
#[derive(Debug, Clone, Copy, PartialEq, Eq)]
pub struct BackoffStep {
    pub attempt: u32,
    pub base_delay_nanos: u128,
}

/// One scheduled reconnect with the bounds jitter may move its delay to.
#[derive(Debug, Clone, Copy, PartialEq, Eq)]
pub struct BackoffDelay {
    pub attempt: u32,
    pub base_delay_nanos: u128,
    pub min_delay_nanos: u128,
    pub max_delay_nanos: u128,
}

/// The delay `select_delay` picks for `seed`.
pub open spec fn select_delay_spec(d: BackoffDelay, seed: nat) -> nat {
    if d.min_delay_nanos == d.max_delay_nanos {
        d.base_delay_nanos as nat
    } else {
        let span = if d.max_delay_nanos >= d.min_delay_nanos {
            (d.max_delay_nanos - d.min_delay_nanos) as nat
        } else {
            0
        };
        if span == 0 {
            d.min_delay_nanos as nat
        } else {
            let modulus = if span + 1 > u128::MAX { u128::MAX as nat } else { span + 1 };
            let sum = d.min_delay_nanos + seed % modulus;
            duration_clamp(if sum > u128::MAX { u128::MAX as nat } else { sum as nat })
        }
    }
}

/// A delay multiplied, saturating, and held as a `Duration` would hold it.
pub fn saturating_mul_duration(duration_nanos: u128, multiplier: u32) -> (r: u128)
    ensures
        r == saturating_mul_nanos(duration_nanos as nat, multiplier as nat),
{
    let product = match duration_nanos.checked_mul(multiplier as u128) {
        Some(p) => p,
        None => u128::MAX,
    };
    nanos_to_duration(product)
}

/// The nanoseconds of a `Duration` of `secs` seconds and `subsec_nanos`
/// nanoseconds.
pub fn duration_to_nanos(secs: u64, subsec_nanos: u32) -> (r: u128)
    requires
        subsec_nanos < 1_000_000_000,
    ensures
        r == secs * 1_000_000_000 + subsec_nanos,
{
    proof {
        assert(secs * 1_000_000_000 <= u64::MAX as int * 1_000_000_000) by (nonlinear_arith)
            requires
                secs <= u64::MAX,
        ;
    }
    secs as u128 * NANOS_PER_SEC + subsec_nanos as u128
}

/// A nanosecond count as a `Duration` holds it: whole seconds saturate.
pub fn nanos_to_duration(nanos: u128) -> (r: u128)
    ensures
        r == duration_clamp(nanos as nat),
{
    clamp_to_duration(nanos)
}

/// A nanosecond count held as a `Duration` would hold it.
pub fn clamp_to_duration(n: u128) -> (r: u128)
    ensures
        r == duration_clamp(n as nat),
{
    let secs = n / NANOS_PER_SEC;
    let sub = n % NANOS_PER_SEC;
    let capped = if secs > (u64::MAX as u128) { u64::MAX as u128 } else { secs };
    proof {
        vstd::arithmetic::div_mod::lemma_fundamental_div_mod(n as int, 1_000_000_000);
        assert(capped * 1_000_000_000 <= secs * 1_000_000_000) by (nonlinear_arith)
            requires
                capped <= secs,
        ;
    }
    capped * NANOS_PER_SEC + sub
}

impl BackoffDelay {
    /// The delay with jitter: `base` widened by `spread` on each side,
    /// saturating at the ends of `u128`, each bound held as a `Duration`
    /// holds it: both bounds are delays a `Duration` can hold, and for a base
/// one can hold, the lower bound is at most the base.
    pub fn with_spread(step: BackoffStep, spread_nanos: u128) -> (r: Self)
        ensures
            r.attempt == step.attempt,
            r.base_delay_nanos == step.base_delay_nanos,
            r.min_delay_nanos == duration_clamp(
                (if step.base_delay_nanos >= spread_nanos {
                    (step.base_delay_nanos - spread_nanos) as nat
                } else {
                    0
                }),
            ),
            r.max_delay_nanos == duration_clamp(
                (if step.base_delay_nanos + spread_nanos > u128::MAX {
                    u128::MAX as nat
                } else {
                    (step.base_delay_nanos + spread_nanos) as nat
                }),
            ),
            r.min_delay_nanos <= duration_max_nanos(),
            r.max_delay_nanos <= duration_max_nanos(),
            step.base_delay_nanos <= duration_max_nanos() ==> r.min_delay_nanos <= r.base_delay_nanos,
    {
        let low = step.base_delay_nanos.saturating_sub(spread_nanos);
        let high = step.base_delay_nanos.saturating_add(spread_nanos);
        proof {
            lemma_clamp_within_duration(low as nat);
            lemma_clamp_within_duration(high as nat);
            if step.base_delay_nanos <= duration_max_nanos() {
                lemma_clamp_keeps_small(low as nat);
            }
        }
        BackoffDelay {
            attempt: step.attempt,
            base_delay_nanos: step.base_delay_nanos,
            min_delay_nanos: nanos_to_duration(low),
            max_delay_nanos: nanos_to_duration(high),
        }
    }

    /// A delay in `[min, max]` picked by `seed_nanos`; the base delay when
    /// there is no jitter.
    pub fn select_delay(self, seed_nanos: u128) -> (r: u128)
        ensures
            r == select_delay_spec(self, seed_nanos as nat),
    {
        if self.min_delay_nanos == self.max_delay_nanos {
            return self.base_delay_nanos;
        }
        let span = self.max_delay_nanos.saturating_sub(self.min_delay_nanos);
        if span == 0 {
            return self.min_delay_nanos;
        }
        let selected = self.min_delay_nanos.saturating_add(seed_nanos % span.saturating_add(1));
        clamp_to_duration(selected)
    }
}

/// What `next_delay` gives for a configuration and the number of the next
/// attempt: the step (none once the attempt limit is passed) and the number
/// of the attempt after it.
pub open spec fn next_delay_spec(c: ExponentialBackoffConfig, attempt: u32) -> (Option<BackoffStep>, u32) {
    if (match c.max_attempts {
        Some(m) => attempt > m,
        None => false,
    }) {
        (None, attempt)
    } else {
        (
            Some(BackoffStep { attempt, base_delay_nanos: base_delay_spec(c, attempt as nat) as u128 }),
            if attempt == u32::MAX { u32::MAX } else { (attempt + 1) as u32 },
        )
    }
}

/// A reconnect schedule: the configuration and the number of the next attempt.
#[derive(Debug, Clone, Copy, PartialEq)]
pub struct ReconnectBackoff {
    config: ExponentialBackoffConfig,
    next_attempt: u32,
}

impl ReconnectBackoff {
    /// The configuration is one `validate` accepts, with delays a
    /// `Duration` can hold.
    #[verifier::type_invariant]
    spec fn config_valid(&self) -> bool {
        &&& backoff_config_problem(self.config) is None
        &&& self.config.max_delay_nanos <= duration_max_nanos()
    }

    pub closed spec fn spec_config(&self) -> ExponentialBackoffConfig {
        self.config
    }

    pub closed spec fn spec_next_attempt(&self) -> u32 {
        self.next_attempt
    }

    /// A schedule starting at attempt 1; refused when the configuration is
    /// not usable. The delays stand for `Duration`s, so they lie within what
    /// a `Duration` can hold.
    pub fn new(config: ExponentialBackoffConfig) -> (r: Result<Self, SdkError>)
        requires
            config.initial_delay_nanos <= duration_max_nanos(),
            config.max_delay_nanos <= duration_max_nanos(),
        ensures
            match backoff_config_problem(config) {
                None => r matches Ok(b) && b.spec_config() == config && b.spec_next_attempt() == 1,
                Some(m) => r matches Err(SdkError::RequestBuild { message }) && message@ == m,
            },
    {
        let config = config.validate()?;
        Ok(ReconnectBackoff { config, next_attempt: 1 })
    }

    pub fn config(&self) -> (r: ExponentialBackoffConfig)
        ensures
            r == self.spec_config(),
            backoff_config_problem(r) is None,
            r.initial_delay_nanos <= r.max_delay_nanos <= duration_max_nanos(),
    {
        proof {
            use_type_invariant(self);
        }
        self.config
    }

    pub fn next_attempt(&self) -> (r: u32)
        ensures
            r == self.spec_next_attempt(),
    {
        self.next_attempt
    }

    /// Back to attempt 1.
    pub fn reset(&mut self)
        ensures
            final(self).spec_next_attempt() == 1,
            final(self).spec_config() == old(self).spec_config(),
    {
        proof {
            use_type_invariant(&*self);
        }
        self.next_attempt = 1;
    }

    /// The next reconnect and its delay before jitter; `None` once the
    /// attempt limit is passed.
    pub fn next_delay(&mut self) -> (r: Option<BackoffStep>)
        ensures
            final(self).spec_config() == old(self).spec_config(),
            (r, final(self).spec_next_attempt()) == next_delay_spec(old(self).spec_config(), old(self).spec_next_attempt()),
            r matches Some(step) ==> step.base_delay_nanos <= duration_max_nanos(),
            match old(self).spec_config().max_attempts {
                Some(m) => old(self).spec_next_attempt() > m,
                None => false,
            } ==> (r is None && final(self).spec_next_attempt() == old(self).spec_next_attempt()),
            !(match old(self).spec_config().max_attempts {
                Some(m) => old(self).spec_next_attempt() > m,
                None => false,
            }) ==> (r matches Some(step) && step.attempt == old(self).spec_next_attempt()
                && step.base_delay_nanos == base_delay_spec(
                old(self).spec_config(),
                old(self).spec_next_attempt() as nat,
            ) && final(self).spec_next_attempt() == (if old(self).spec_next_attempt() == u32::MAX {
                u32::MAX
            } else {
                (old(self).spec_next_attempt() + 1) as u32
            })),
    {
        proof {
            use_type_invariant(&*self);
        }
        if let Some(max_attempts) = self.config.max_attempts {
            if self.next_attempt > max_attempts {
                return None;
            }
        }
        let attempt = self.next_attempt;
        self.next_attempt = self.next_attempt.saturating_add(1);
        let base_delay_nanos = self.base_delay_for_attempt(attempt);
        proof {
            law_base_delay_at_most_max(self.spec_config(), attempt as nat);
        }
        Some(BackoffStep { attempt, base_delay_nanos })
    }

    /// The delay before reconnect `attempt`: the initial delay multiplied
    /// once per earlier attempt, capped at the maximum.
    fn base_delay_for_attempt(&self, attempt: u32) -> (r: u128)
        ensures
            r == base_delay_spec(self.spec_config(), attempt as nat),
    {
        let mut delay = self.config.initial_delay_nanos;
        let max = self.config.max_delay_nanos;
        let m = self.config.multiplier;
        let mut i: u32 = 1;
        while i < attempt
            invariant
                1 <= i,
                attempt >= 1 ==> i <= attempt,
                max == self.config.max_delay_nanos,
                m == self.config.multiplier,
                base_delay_spec(self.spec_config(), attempt as nat) == grow_delay(
                    delay as nat,
                    m as nat,
                    max as nat,
                    (if attempt >= 1 { attempt - i } else { 0 }) as nat,
                ),
            decreases attempt - i,
        {
            let d2 = saturating_mul_duration(delay, m);
            if d2 >= max {
                return max;
            }
            delay = d2;
            i = i + 1;
        }
        if delay < max {
            delay
        } else {
            max
        }
    }
}


/// The longest delay a `Duration` can hold, in nanoseconds, to the second.
pub open spec fn duration_bound() -> nat {
    u64::MAX as nat * 1_000_000_000
}

proof fn lemma_clamp_keeps_small(n: nat)
    requires
        n <= duration_max_nanos(),
    ensures
        duration_clamp(n) == n,
{
    vstd::arithmetic::div_mod::lemma_fundamental_div_mod(n as int, 1_000_000_000);
    assert(n / 1_000_000_000 <= u64::MAX) by (nonlinear_arith)
        requires
            n <= u64::MAX as nat * 1_000_000_000 + 999_999_999,
    ;
}

/// What a `Duration` holds never exceeds its longest delay.
proof fn lemma_clamp_within_duration(n: nat)
    ensures
        duration_clamp(n) <= duration_max_nanos(),
{
    vstd::arithmetic::div_mod::lemma_fundamental_div_mod(n as int, 1_000_000_000);
    let secs = if n / 1_000_000_000 > u64::MAX { u64::MAX as nat } else { n / 1_000_000_000 };
    assert(secs * 1_000_000_000 <= u64::MAX as nat * 1_000_000_000) by (nonlinear_arith)
        requires
            secs <= u64::MAX,
    ;
}


proof fn lemma_clamp_large(n: nat)
    requires
        n / 1_000_000_000 > u64::MAX,
    ensures
        duration_clamp(n) >= duration_bound(),
{
}

/// Multiplying by at least 1 never shortens a delay a `Duration` can hold.
proof fn lemma_mul_not_shorter(d: nat, m: nat)
    requires
        m >= 1,
        d <= duration_bound(),
    ensures
        saturating_mul_nanos(d, m) >= d,
{
    let p = d * m;
    assert(p >= d) by (nonlinear_arith)
        requires
            m >= 1,
            p == d * m,
    ;
    let q = if p > u128::MAX { u128::MAX as nat } else { p };
    assert(q >= d);
    vstd::arithmetic::div_mod::lemma_fundamental_div_mod(q as int, 1_000_000_000);
    if q / 1_000_000_000 <= u64::MAX {
        assert(duration_clamp(q) == q);
    } else {
        lemma_clamp_large(q);
    }
}

proof fn lemma_grow_at_most_max(d: nat, m: nat, max: nat, steps: nat)
    ensures
        grow_delay(d, m, max, steps) <= max,
    decreases steps,
{
    if steps > 0 {
        let d2 = saturating_mul_nanos(d, m);
        if d2 < max {
            lemma_grow_at_most_max(d2, m, max, (steps - 1) as nat);
        }
    }
}

proof fn lemma_grow_one_more(d: nat, m: nat, max: nat, steps: nat)
    requires
        m >= 1,
        d <= max,
        max <= duration_bound(),
    ensures
        grow_delay(d, m, max, steps) <= grow_delay(d, m, max, steps + 1),
    decreases steps,
{
    lemma_mul_not_shorter(d, m);
    let d2 = saturating_mul_nanos(d, m);
    if d2 < max {
        assert(grow_delay(d, m, max, steps + 1) == grow_delay(d2, m, max, steps));
        if steps > 0 {
            assert(grow_delay(d, m, max, steps) == grow_delay(d2, m, max, (steps - 1) as nat));
            lemma_grow_one_more(d2, m, max, (steps - 1) as nat);
        } else {
            assert(grow_delay(d2, m, max, 0) == d2);
        }
    } else {
        assert(grow_delay(d, m, max, steps + 1) == max);
        lemma_grow_at_most_max(d, m, max, steps);
    }
}

/// Every scheduled delay before jitter is at most the configured maximum.
pub proof fn law_base_delay_at_most_max(c: ExponentialBackoffConfig, attempt: nat)
    ensures
        base_delay_spec(c, attempt) <= c.max_delay_nanos,
{
    lemma_grow_at_most_max(
        c.initial_delay_nanos as nat,
        c.multiplier as nat,
        c.max_delay_nanos as nat,
        if attempt >= 1 { (attempt - 1) as nat } else { 0 },
    );
}

/// Later reconnects never wait less than earlier ones (before jitter), for
/// a valid configuration whose maximum a `Duration` can hold.
pub proof fn law_base_delay_monotone(c: ExponentialBackoffConfig, a: nat, b: nat)
    requires
        backoff_config_problem(c) is None,
        c.max_delay_nanos <= duration_bound(),
        1 <= a <= b,
    ensures
        base_delay_spec(c, a) <= base_delay_spec(c, b),
    decreases b - a,
{
    if a < b {
        law_base_delay_monotone(c, a, (b - 1) as nat);
        lemma_grow_one_more(
            c.initial_delay_nanos as nat,
            c.multiplier as nat,
            c.max_delay_nanos as nat,
            (b - 2) as nat,
        );
    }
}

/// The delay after `x`: the maximum once reached, else `x` times the
/// multiplier, capped at the maximum.
pub open spec fn next_base_delay(x: nat, m: nat, max: nat) -> nat {
    if x >= max {
        max
    } else if saturating_mul_nanos(x, m) >= max {
        max
    } else {
        saturating_mul_nanos(x, m)
    }
}

proof fn lemma_grow_step(d: nat, m: nat, max: nat, k: nat)
    requires
        m >= 1,
        d <= max,
        max <= duration_bound(),
    ensures
        grow_delay(d, m, max, k + 1) == next_base_delay(grow_delay(d, m, max, k), m, max),
    decreases k,
{
    let d2 = saturating_mul_nanos(d, m);
    lemma_mul_not_shorter(d, m);
    if k == 0 {
        assert(grow_delay(d, m, max, 1) == (if d2 >= max { max } else { grow_delay(d2, m, max, 0) }));
        if d == max {
            lemma_mul_not_shorter(max, m);
        }
    } else {
        if d2 < max {
            lemma_grow_step(d2, m, max, (k - 1) as nat);
            assert(grow_delay(d, m, max, k + 1) == grow_delay(d2, m, max, k));
            assert(grow_delay(d, m, max, k) == grow_delay(d2, m, max, (k - 1) as nat));
        } else {
            lemma_mul_not_shorter(max, m);
            assert(grow_delay(d, m, max, k + 1) == max);
            assert(grow_delay(d, m, max, k) == max);
        }
    }
}

/// Each reconnect waits the previous delay times the multiplier, capped at
/// the maximum (and stays at the maximum once it is reached), for a valid
/// configuration whose maximum a `Duration` can hold.
pub proof fn law_base_delay_grows_by_multiplier(c: ExponentialBackoffConfig, attempt: nat)
    requires
        backoff_config_problem(c) is None,
        c.max_delay_nanos <= duration_bound(),
        attempt >= 1,
    ensures
        base_delay_spec(c, attempt + 1) == next_base_delay(
            base_delay_spec(c, attempt),
            c.multiplier as nat,
            c.max_delay_nanos as nat,
        ),
{
    lemma_grow_step(
        c.initial_delay_nanos as nat,
        c.multiplier as nat,
        c.max_delay_nanos as nat,
        (attempt - 1) as nat,
    );
}

/// Multiplying a delay is exact while the product is a delay a `Duration`
/// can hold.
pub proof fn law_delay_multiplication_exact(d: nat, m: nat)
    requires
        d * m <= duration_max_nanos(),
    ensures
        saturating_mul_nanos(d, m) == d * m,
{
    lemma_clamp_keeps_small(d * m);
}

/// The first reconnect waits the initial delay.
pub proof fn law_first_delay_is_initial(c: ExponentialBackoffConfig)
    requires
        backoff_config_problem(c) is None,
    ensures
        base_delay_spec(c, 1) == c.initial_delay_nanos,
{
}

/// A jittered delay stays within its bounds, when the bounds surround the
/// base delay and a `Duration` can hold them (as `with_spread` gives for a
/// delay `next_delay` schedules).
pub proof fn law_selected_delay_within_bounds(d: BackoffDelay, seed: nat)
    requires
        d.min_delay_nanos <= d.base_delay_nanos <= d.max_delay_nanos,
        d.max_delay_nanos <= duration_max_nanos(),
    ensures
        d.min_delay_nanos <= select_delay_spec(d, seed) <= d.max_delay_nanos,
{
    if d.min_delay_nanos != d.max_delay_nanos {
        let span = (d.max_delay_nanos - d.min_delay_nanos) as nat;
        let modulus = if span + 1 > u128::MAX { u128::MAX as nat } else { span + 1 };
        assert(seed % modulus < modulus) by (nonlinear_arith)
            requires
                modulus > 0,
        ;
        let sum = d.min_delay_nanos + seed % modulus;
        assert(sum <= d.max_delay_nanos);
        lemma_clamp_keeps_small(sum as nat);
    }
}

/// The error a recovering stream reports when it gives up reconnecting.
pub fn recovery_exhausted(reason: &str, stream: &str) -> (r: SdkError)
    ensures
        r matches SdkError::WsTransport { message } && message@ == reason@
            + "; ws recovery attempts exhausted for "@ + stream@,
{
    SdkError::ws_transport(String::from_str(reason).concat("; ws recovery attempts exhausted for ").concat(stream))
}

} // verus!
