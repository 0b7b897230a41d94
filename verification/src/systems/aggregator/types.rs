//! Bars requests, their normalized wire forms, and pair-list helpers.
use vstd::prelude::*;
use crate::sdk_core::error::SdkError;
use crate::sdk_core::text::{
    trimmed_nonblank, trim_nonblank_values, join_comma, join_with, clone_opt_string,
    clone_opt_strings, clone_i64s, trim, trim_str, opt_string_view,
};
use crate::sdk_core::time::{TimeInput, opt_time_input_ms, time_input_ms, opt_to_utc_ms, time_input_message};
use crate::systems::types::{AlignMode, BarsView, HttpFormat, LatestMode, Timeframe};

verus! {

/// A copy of a time input.
pub fn clone_time_input(t: &TimeInput) -> (r: TimeInput)
    ensures
        r == *t,
{
    match t {
        TimeInput::Ms(v) => TimeInput::Ms(*v),
        TimeInput::Utc(s) => TimeInput::Utc(s.clone()),
    }
}

/// A copy of an optional time input.
pub fn clone_opt_time_input(t: &Option<TimeInput>) -> (r: Option<TimeInput>)
    ensures
        r == *t,
{
    match t {
        Some(v) => Some(clone_time_input(v)),
        None => None,
    }
}

/// The pair values trimmed, blank ones left out, order kept.
pub fn normalize_pair_values(values: &Vec<String>) -> (r: Vec<String>)
    ensures
        r.deep_view() == trimmed_nonblank(values.deep_view()),
{
    trim_nonblank_values(values)
}

/// The normalized pairs; refused when none is left.
pub fn normalize_required_pair_values(values: &Vec<String>, context: &str) -> (r: Result<
    Vec<String>,
    SdkError,
>)
    ensures
        trimmed_nonblank(values.deep_view()).len() > 0 ==> (r matches Ok(v) && v.deep_view()
            == trimmed_nonblank(values.deep_view())),
        trimmed_nonblank(values.deep_view()).len() == 0 ==> (r matches Err(
            SdkError::RequestBuild { message },
        ) && message@ == context@ + " requires at least one pair"@),
{
    let normalized = normalize_pair_values(values);
    if normalized.len() == 0 {
        assert(normalized.deep_view().len() == 0);
        return Err(
            SdkError::request_build(
                String::from_str(context).concat(" requires at least one pair"),
            ),
        );
    }
    assert(normalized.deep_view().len() > 0);
    Ok(normalized)
}

/// The normalized pairs joined with commas, or `None` when none is left.
pub fn join_optional_pair_values_csv(values: Option<&Vec<String>>) -> (r: Option<String>)
    ensures
        match values {
            Some(v) => {
                let joined = join_with(trimmed_nonblank(v.deep_view()), seq![',']);
                if joined.len() > 0 { r matches Some(s) && s@ == joined } else { r is None }
            },
            None => r is None,
        },
{
    match values {
        None => None,
        Some(v) => {
            let normalized = normalize_pair_values(v);
            let joined = join_comma(&normalized);
            if joined.as_str().is_empty() {
                None
            } else {
                Some(joined)
            }
        },
    }
}


/// Whether some pair is left after trimming and dropping blanks.
pub open spec fn has_pairs(pairs: Seq<Seq<char>>) -> bool {
    trimmed_nonblank(pairs).len() > 0
}

/// `latest` for bars.
#[derive(Debug, Clone, PartialEq)]
pub struct LatestRequest {
    pub pairs: Vec<String>,
    pub tf: Timeframe,
    pub latest_mode: LatestMode,
    pub metadata: Option<bool>,
    pub format: Option<HttpFormat>,
}

/// The wire body of `latest` for bars.
#[derive(Debug, Clone, PartialEq)]
pub struct NormalizedLatestBarsRequest {
    pub pairs: Vec<String>,
    pub tf: Timeframe,
    pub latest_mode: LatestMode,
    pub metadata: Option<bool>,
    pub format: Option<HttpFormat>,
}

/// `latest` for bars over gRPC.
#[derive(Debug, Clone, PartialEq)]
pub struct LatestGrpcRequest {
    pub pairs: Vec<String>,
    pub tf: Timeframe,
    pub latest_mode: LatestMode,
    pub metadata: Option<bool>,
}

impl LatestRequest {
    /// The wire body: pairs trimmed and blanks dropped; refused without pairs.
    pub fn normalize(&self) -> (r: Result<NormalizedLatestBarsRequest, SdkError>)
        ensures
            has_pairs(self.pairs.deep_view()) ==> (r matches Ok(n) && n.pairs.deep_view()
                == trimmed_nonblank(self.pairs.deep_view()) && n.tf == self.tf && n.latest_mode
                == self.latest_mode && n.metadata == self.metadata && n.format == self.format),
            !has_pairs(self.pairs.deep_view()) ==> (r matches Err(SdkError::RequestBuild { message })
                && message@ == "latest bars"@ + " requires at least one pair"@),
    {
        let pairs = normalize_required_pair_values(&self.pairs, "latest bars")?;
        Ok(NormalizedLatestBarsRequest {
            pairs,
            tf: self.tf,
            latest_mode: self.latest_mode,
            metadata: self.metadata,
            format: self.format,
        })
    }
}

impl LatestGrpcRequest {
    /// The gRPC form of a `latest` request.
    pub fn from_latest(value: &LatestRequest) -> (r: Self)
        ensures
            r.pairs@ == value.pairs@,
            r.tf == value.tf,
            r.latest_mode == value.latest_mode,
            r.metadata == value.metadata,
    {
        LatestGrpcRequest {
            pairs: crate::sdk_core::text::clone_strings(&value.pairs),
            tf: value.tf,
            latest_mode: value.latest_mode,
            metadata: value.metadata,
        }
    }
}

/// `range` for bars.
#[derive(Debug, Clone, PartialEq)]
pub struct RangeRequest {
    pub pairs: Vec<String>,
    pub tf: Timeframe,
    pub align_mode: Option<AlignMode>,
    pub close_start: Option<TimeInput>,
    pub cursor: Option<String>,
    pub close_end: Option<TimeInput>,
    pub limit: Option<i64>,
    pub metadata: Option<bool>,
    pub format: Option<HttpFormat>,
}

/// `range` for bars over gRPC.
#[derive(Debug, Clone, PartialEq)]
pub struct RangeGrpcRequest {
    pub pairs: Vec<String>,
    pub tf: Timeframe,
    pub align_mode: Option<AlignMode>,
    pub close_start: Option<TimeInput>,
    pub cursor: Option<String>,
    pub close_end: Option<TimeInput>,
    pub limit: Option<i64>,
    pub metadata: Option<bool>,
}

/// The wire body of `range` for bars.
#[derive(Debug, Clone, PartialEq)]
pub struct NormalizedRangeBarsRequest {
    pub pairs: Vec<String>,
    pub tf: Timeframe,
    pub align_mode: Option<AlignMode>,
    pub close_start_ms: Option<i64>,
    pub cursor: Option<String>,
    pub close_end_ms: Option<i64>,
    pub limit: Option<i64>,
    pub metadata: Option<bool>,
    pub format: Option<HttpFormat>,
}

/// The gRPC body of `range` for bars: absent bounds become 0, absent
/// metadata becomes `false`.
#[derive(Debug, Clone, PartialEq)]
pub struct NormalizedRangeBarsGrpcRequest {
    pub pairs: Vec<String>,
    pub tf: Timeframe,
    pub align_mode: Option<AlignMode>,
    pub close_start_ms: i64,
    pub cursor: Option<String>,
    pub close_end_ms: i64,
    pub limit: Option<i64>,
    pub metadata: bool,
}

/// Whether the pairs and both bounds of a range read.
pub open spec fn range_inputs_ok(
    pairs: Seq<Seq<char>>,
    close_start: Option<TimeInput>,
    close_end: Option<TimeInput>,
) -> bool {
    has_pairs(pairs) && opt_time_input_ms(close_start) is Some && opt_time_input_ms(close_end) is Some
}

/// The error a refused range gives: missing pairs first, then a bound that
/// does not read.
pub open spec fn range_error_matches(
    r: SdkError,
    pairs: Seq<Seq<char>>,
    context: Seq<char>,
    close_start: Option<TimeInput>,
    close_end: Option<TimeInput>,
) -> bool {
    if !has_pairs(pairs) {
        r matches SdkError::RequestBuild { message } && message@ == context + " requires at least one pair"@
    } else {
        r matches SdkError::InvalidTimeInput { message } && message@ == range_time_message(close_start, close_end)
    }
}

/// An absent value read as 0.
pub open spec fn or_zero(v: Option<i64>) -> i64 {
    match v {
        Some(x) => x,
        None => 0,
    }
}

impl RangeRequest {
    /// The wire body: pairs normalized, bounds as UTC milliseconds.
    pub fn normalize(&self) -> (r: Result<NormalizedRangeBarsRequest, SdkError>)
        ensures
            range_inputs_ok(self.pairs.deep_view(), self.close_start, self.close_end) ==> (r matches Ok(n)
                && n.pairs.deep_view() == trimmed_nonblank(self.pairs.deep_view()) && n.tf == self.tf
                && n.align_mode == self.align_mode && n.close_start_ms == opt_time_input_ms(
                self.close_start,
            ).unwrap() && n.cursor == self.cursor && n.close_end_ms == opt_time_input_ms(
                self.close_end,
            ).unwrap() && n.limit == self.limit && n.metadata == self.metadata && n.format
                == self.format),
            !range_inputs_ok(self.pairs.deep_view(), self.close_start, self.close_end) ==> (r matches Err(e)
                && range_error_matches(e, self.pairs.deep_view(), "range bars"@, self.close_start, self.close_end)),
    {
        let pairs = normalize_required_pair_values(&self.pairs, "range bars")?;
        let close_start_ms = opt_to_utc_ms(&self.close_start)?;
        let close_end_ms = opt_to_utc_ms(&self.close_end)?;
        Ok(NormalizedRangeBarsRequest {
            pairs,
            tf: self.tf,
            align_mode: self.align_mode,
            close_start_ms,
            cursor: clone_opt_string(&self.cursor),
            close_end_ms,
            limit: self.limit,
            metadata: self.metadata,
            format: self.format,
        })
    }
}

impl RangeGrpcRequest {
    /// The gRPC body: as for HTTP, with absent bounds as 0 and absent
    /// metadata as `false`.
    pub fn normalize(&self) -> (r: Result<NormalizedRangeBarsGrpcRequest, SdkError>)
        ensures
            range_inputs_ok(self.pairs.deep_view(), self.close_start, self.close_end) ==> (r matches Ok(n)
                && n.pairs.deep_view() == trimmed_nonblank(self.pairs.deep_view()) && n.tf == self.tf
                && n.align_mode == self.align_mode && n.close_start_ms == or_zero(
                opt_time_input_ms(self.close_start).unwrap(),
            ) && n.cursor == self.cursor && n.close_end_ms == or_zero(
                opt_time_input_ms(self.close_end).unwrap(),
            ) && n.limit == self.limit && n.metadata == (self.metadata == Some(true))),
            !range_inputs_ok(self.pairs.deep_view(), self.close_start, self.close_end) ==> (r matches Err(e)
                && range_error_matches(e, self.pairs.deep_view(), "range bars"@, self.close_start, self.close_end)),
    {
        let pairs = normalize_required_pair_values(&self.pairs, "range bars")?;
        let close_start_ms = opt_to_utc_ms(&self.close_start)?;
        let close_end_ms = opt_to_utc_ms(&self.close_end)?;
        Ok(NormalizedRangeBarsGrpcRequest {
            pairs,
            tf: self.tf,
            align_mode: self.align_mode,
            close_start_ms: close_start_ms.unwrap_or(0),
            cursor: clone_opt_string(&self.cursor),
            close_end_ms: close_end_ms.unwrap_or(0),
            limit: self.limit,
            metadata: self.metadata.unwrap_or(false),
        })
    }

    /// The gRPC form of a `range` request.
    pub fn from_range(value: &RangeRequest) -> (r: Self)
        ensures
            r.pairs@ == value.pairs@,
            r.tf == value.tf,
            r.align_mode == value.align_mode,
            r.close_start == value.close_start,
            r.cursor == value.cursor,
            r.close_end == value.close_end,
            r.limit == value.limit,
            r.metadata == value.metadata,
    {
        RangeGrpcRequest {
            pairs: crate::sdk_core::text::clone_strings(&value.pairs),
            tf: value.tf,
            align_mode: value.align_mode,
            close_start: clone_opt_time_input(&value.close_start),
            cursor: clone_opt_string(&value.cursor),
            close_end: clone_opt_time_input(&value.close_end),
            limit: value.limit,
            metadata: value.metadata,
        }
    }
}


/// `search` for bars.
#[derive(Debug, Clone, PartialEq)]
pub struct SearchRequest {
    pub tf: Timeframe,
    pub close_start: TimeInput,
    pub close_end: Option<TimeInput>,
    pub cursor: Option<String>,
    pub predicate: String,
    pub evaluate_pair: Option<String>,
    pub metadata: Option<bool>,
    pub max_hits: Option<i64>,
    pub format: Option<HttpFormat>,
}

/// `search` for bars over gRPC.
#[derive(Debug, Clone, PartialEq)]
pub struct SearchGrpcRequest {
    pub tf: Timeframe,
    pub close_start: TimeInput,
    pub close_end: Option<TimeInput>,
    pub cursor: Option<String>,
    pub predicate: String,
    pub evaluate_pair: Option<String>,
    pub metadata: Option<bool>,
    pub max_hits: Option<i64>,
}

/// The wire body of `search` for bars.
#[derive(Debug, Clone, PartialEq)]
pub struct NormalizedSearchBarsRequest {
    pub tf: Timeframe,
    pub close_start_ms: i64,
    pub close_end_ms: Option<i64>,
    pub cursor: Option<String>,
    pub predicate: String,
    pub evaluate_pair: Option<String>,
    pub metadata: Option<bool>,
    pub max_hits: Option<i64>,
    pub format: Option<HttpFormat>,
}

/// The gRPC body of `search` for bars.
#[derive(Debug, Clone, PartialEq)]
pub struct NormalizedSearchBarsGrpcRequest {
    pub tf: Timeframe,
    pub close_start_ms: i64,
    pub close_end_ms: i64,
    pub cursor: Option<String>,
    pub predicate: String,
    pub evaluate_pair: Option<String>,
    pub metadata: bool,
    pub max_hits: Option<i64>,
}

/// Whether a required start and an optional end both read.
pub open spec fn window_inputs_ok(close_start: TimeInput, close_end: Option<TimeInput>) -> bool {
    time_input_ms(close_start) is Some && opt_time_input_ms(close_end) is Some
}

/// The message of the first of two optional bounds that does not read.
pub open spec fn range_time_message(close_start: Option<TimeInput>, close_end: Option<TimeInput>) -> Seq<char> {
    if opt_time_input_ms(close_start) is None {
        time_input_message(close_start.unwrap())
    } else {
        time_input_message(close_end.unwrap())
    }
}

/// The message of the first bound of a window that does not read.
pub open spec fn window_time_message(close_start: TimeInput, close_end: Option<TimeInput>) -> Seq<char> {
    if time_input_ms(close_start) is None {
        time_input_message(close_start)
    } else {
        time_input_message(close_end.unwrap())
    }
}

impl SearchRequest {
    /// The wire body: bounds as UTC milliseconds.
    pub fn normalize(&self) -> (r: Result<NormalizedSearchBarsRequest, SdkError>)
        ensures
            window_inputs_ok(self.close_start, self.close_end) ==> (r matches Ok(n) && n.tf
                == self.tf && n.close_start_ms == time_input_ms(self.close_start).unwrap()
                && n.close_end_ms == opt_time_input_ms(self.close_end).unwrap() && n.cursor
                == self.cursor && n.predicate == self.predicate && n.evaluate_pair
                == self.evaluate_pair && n.metadata == self.metadata && n.max_hits == self.max_hits
                && n.format == self.format),
            !window_inputs_ok(self.close_start, self.close_end) ==> (r matches Err(
                SdkError::InvalidTimeInput { message },
            ) && message@ == window_time_message(self.close_start, self.close_end)),
    {
        let close_start_ms = self.close_start.to_utc_ms()?;
        let close_end_ms = opt_to_utc_ms(&self.close_end)?;
        Ok(NormalizedSearchBarsRequest {
            tf: self.tf,
            close_start_ms,
            close_end_ms,
            cursor: clone_opt_string(&self.cursor),
            predicate: self.predicate.clone(),
            evaluate_pair: clone_opt_string(&self.evaluate_pair),
            metadata: self.metadata,
            max_hits: self.max_hits,
            format: self.format,
        })
    }
}

impl SearchGrpcRequest {
    /// The gRPC body: bounds as UTC milliseconds (absent end as 0), the
    /// predicate trimmed, absent metadata as `false`.
    pub fn normalize(&self) -> (r: Result<NormalizedSearchBarsGrpcRequest, SdkError>)
        ensures
            window_inputs_ok(self.close_start, self.close_end) ==> (r matches Ok(n) && n.tf
                == self.tf && n.close_start_ms == time_input_ms(self.close_start).unwrap()
                && n.close_end_ms == or_zero(opt_time_input_ms(self.close_end).unwrap())
                && n.cursor == self.cursor && n.predicate@ == trim(self.predicate@)
                && n.evaluate_pair == self.evaluate_pair && n.metadata == (self.metadata == Some(
                true,
            )) && n.max_hits == self.max_hits),
            !window_inputs_ok(self.close_start, self.close_end) ==> (r matches Err(
                SdkError::InvalidTimeInput { message },
            ) && message@ == window_time_message(self.close_start, self.close_end)),
    {
        let close_start_ms = self.close_start.to_utc_ms()?;
        let close_end_ms = opt_to_utc_ms(&self.close_end)?;
        Ok(NormalizedSearchBarsGrpcRequest {
            tf: self.tf,
            close_start_ms,
            close_end_ms: close_end_ms.unwrap_or(0),
            cursor: clone_opt_string(&self.cursor),
            predicate: trim_str(self.predicate.as_str()),
            evaluate_pair: clone_opt_string(&self.evaluate_pair),
            metadata: self.metadata.unwrap_or(false),
            max_hits: self.max_hits,
        })
    }

    /// The gRPC form of a `search` request.
    pub fn from_search(value: &SearchRequest) -> (r: Self)
        ensures
            r.tf == value.tf,
            r.close_start == value.close_start,
            r.close_end == value.close_end,
            r.cursor == value.cursor,
            r.predicate == value.predicate,
            r.evaluate_pair == value.evaluate_pair,
            r.metadata == value.metadata,
            r.max_hits == value.max_hits,
    {
        SearchGrpcRequest {
            tf: value.tf,
            close_start: clone_time_input(&value.close_start),
            close_end: clone_opt_time_input(&value.close_end),
            cursor: clone_opt_string(&value.cursor),
            predicate: value.predicate.clone(),
            evaluate_pair: clone_opt_string(&value.evaluate_pair),
            metadata: value.metadata,
            max_hits: value.max_hits,
        }
    }
}

/// `time_machine` for bars.
#[derive(Debug, Clone, PartialEq)]
pub struct TimeMachineRequest {
    pub tf: Timeframe,
    pub close_start: TimeInput,
    pub close_end: Option<TimeInput>,
    pub cursor: Option<String>,
    pub predicate: Option<String>,
    pub hits: Option<Vec<i64>>,
    pub output_pairs: Option<Vec<String>>,
    pub metadata: Option<bool>,
    pub before_bars: Option<i64>,
    pub after_bars: Option<i64>,
    pub max_hits: Option<i64>,
    pub overlap_mode: Option<String>,
    pub format: Option<HttpFormat>,
}

/// `time_machine` for bars over gRPC.
#[derive(Debug, Clone, PartialEq)]
pub struct TimeMachineGrpcRequest {
    pub tf: Timeframe,
    pub close_start: TimeInput,
    pub close_end: Option<TimeInput>,
    pub cursor: Option<String>,
    pub predicate: Option<String>,
    pub hits: Option<Vec<i64>>,
    pub output_pairs: Option<Vec<String>>,
    pub metadata: Option<bool>,
    pub before_bars: Option<i64>,
    pub after_bars: Option<i64>,
    pub max_hits: Option<i64>,
    pub overlap_mode: Option<String>,
}

/// The wire body of `time_machine` for bars.
#[derive(Debug, Clone, PartialEq)]
pub struct NormalizedTimeMachineBarsRequest {
    pub tf: Timeframe,
    pub close_start_ms: i64,
    pub close_end_ms: Option<i64>,
    pub cursor: Option<String>,
    pub predicate: Option<String>,
    pub hits: Option<Vec<i64>>,
    pub output_pairs: Option<Vec<String>>,
    pub metadata: Option<bool>,
    pub before_bars: Option<i64>,
    pub after_bars: Option<i64>,
    pub max_hits: Option<i64>,
    pub overlap_mode: Option<String>,
    pub format: Option<HttpFormat>,
}

/// The gRPC body of `time_machine` for bars.
#[derive(Debug, Clone, PartialEq)]
pub struct NormalizedTimeMachineBarsGrpcRequest {
    pub tf: Timeframe,
    pub close_start_ms: i64,
    pub close_end_ms: i64,
    pub cursor: Option<String>,
    pub predicate: Option<String>,
    pub hits: Option<Vec<i64>>,
    pub output_pairs: Option<Vec<String>>,
    pub metadata: bool,
    pub before_bars: Option<i64>,
    pub after_bars: Option<i64>,
    pub max_hits: Option<i64>,
    pub overlap_mode: Option<String>,
}

/// Copies of optional integer lists.
pub fn clone_opt_i64s(v: &Option<Vec<i64>>) -> (r: Option<Vec<i64>>)
    ensures
        r is Some <==> v is Some,
        r is Some ==> r->0@ == v->0@,
{
    match v {
        Some(x) => Some(clone_i64s(x)),
        None => None,
    }
}

/// Whether two optional lists hold the same items.
pub open spec fn same_opt_seq<T>(a: Option<Vec<T>>, b: Option<Vec<T>>) -> bool {
    match (a, b) {
        (Some(x), Some(y)) => x@ == y@,
        (None, None) => true,
        _ => false,
    }
}

impl TimeMachineRequest {
    /// The wire body: bounds as UTC milliseconds, everything else as given.
    pub fn normalize(&self) -> (r: Result<NormalizedTimeMachineBarsRequest, SdkError>)
        ensures
            window_inputs_ok(self.close_start, self.close_end) ==> (r matches Ok(n) && n.tf
                == self.tf && n.close_start_ms == time_input_ms(self.close_start).unwrap()
                && n.close_end_ms == opt_time_input_ms(self.close_end).unwrap() && n.cursor
                == self.cursor && n.predicate == self.predicate && same_opt_seq(n.hits, self.hits)
                && same_opt_seq(n.output_pairs, self.output_pairs) && n.metadata == self.metadata
                && n.before_bars == self.before_bars && n.after_bars == self.after_bars
                && n.max_hits == self.max_hits && n.overlap_mode == self.overlap_mode && n.format
                == self.format),
            !window_inputs_ok(self.close_start, self.close_end) ==> (r matches Err(
                SdkError::InvalidTimeInput { message },
            ) && message@ == window_time_message(self.close_start, self.close_end)),
    {
        let close_start_ms = self.close_start.to_utc_ms()?;
        let close_end_ms = opt_to_utc_ms(&self.close_end)?;
        Ok(NormalizedTimeMachineBarsRequest {
            tf: self.tf,
            close_start_ms,
            close_end_ms,
            cursor: clone_opt_string(&self.cursor),
            predicate: clone_opt_string(&self.predicate),
            hits: clone_opt_i64s(&self.hits),
            output_pairs: clone_opt_strings(&self.output_pairs),
            metadata: self.metadata,
            before_bars: self.before_bars,
            after_bars: self.after_bars,
            max_hits: self.max_hits,
            overlap_mode: clone_opt_string(&self.overlap_mode),
            format: self.format,
        })
    }
}

impl TimeMachineGrpcRequest {
    /// The gRPC body: as for HTTP, with an absent end as 0 and absent
    /// metadata as `false`.
    pub fn normalize(&self) -> (r: Result<NormalizedTimeMachineBarsGrpcRequest, SdkError>)
        ensures
            window_inputs_ok(self.close_start, self.close_end) ==> (r matches Ok(n) && n.tf
                == self.tf && n.close_start_ms == time_input_ms(self.close_start).unwrap()
                && n.close_end_ms == or_zero(opt_time_input_ms(self.close_end).unwrap())
                && n.cursor == self.cursor && n.predicate == self.predicate && same_opt_seq(
                n.hits,
                self.hits,
            ) && same_opt_seq(n.output_pairs, self.output_pairs) && n.metadata == (self.metadata
                == Some(true)) && n.before_bars == self.before_bars && n.after_bars
                == self.after_bars && n.max_hits == self.max_hits && n.overlap_mode
                == self.overlap_mode),
            !window_inputs_ok(self.close_start, self.close_end) ==> (r matches Err(
                SdkError::InvalidTimeInput { message },
            ) && message@ == window_time_message(self.close_start, self.close_end)),
    {
        let close_start_ms = self.close_start.to_utc_ms()?;
        let close_end_ms = opt_to_utc_ms(&self.close_end)?;
        Ok(NormalizedTimeMachineBarsGrpcRequest {
            tf: self.tf,
            close_start_ms,
            close_end_ms: close_end_ms.unwrap_or(0),
            cursor: clone_opt_string(&self.cursor),
            predicate: clone_opt_string(&self.predicate),
            hits: clone_opt_i64s(&self.hits),
            output_pairs: clone_opt_strings(&self.output_pairs),
            metadata: self.metadata.unwrap_or(false),
            before_bars: self.before_bars,
            after_bars: self.after_bars,
            max_hits: self.max_hits,
            overlap_mode: clone_opt_string(&self.overlap_mode),
        })
    }

    /// The gRPC form of a `time_machine` request.
    pub fn from_time_machine(value: &TimeMachineRequest) -> (r: Self)
        ensures
            r.tf == value.tf,
            r.close_start == value.close_start,
            r.close_end == value.close_end,
            r.cursor == value.cursor,
            r.predicate == value.predicate,
            same_opt_seq(r.hits, value.hits),
            same_opt_seq(r.output_pairs, value.output_pairs),
            r.metadata == value.metadata,
            r.before_bars == value.before_bars,
            r.after_bars == value.after_bars,
            r.max_hits == value.max_hits,
            r.overlap_mode == value.overlap_mode,
    {
        TimeMachineGrpcRequest {
            tf: value.tf,
            close_start: clone_time_input(&value.close_start),
            close_end: clone_opt_time_input(&value.close_end),
            cursor: clone_opt_string(&value.cursor),
            predicate: clone_opt_string(&value.predicate),
            hits: clone_opt_i64s(&value.hits),
            output_pairs: clone_opt_strings(&value.output_pairs),
            metadata: value.metadata,
            before_bars: value.before_bars,
            after_bars: value.after_bars,
            max_hits: value.max_hits,
            overlap_mode: clone_opt_string(&value.overlap_mode),
        }
    }
}


/// Paging and filters of the pair status listing.
#[derive(Debug, Clone, PartialEq, Default)]
pub struct PairsStatusRequest {
    pub after_pair: Option<String>,
    pub limit: Option<i64>,
    pub pairs: Option<Vec<String>>,
    pub filters: Option<Vec<String>>,
}

/// Paging of the pair catalogue.
#[derive(Debug, Clone, PartialEq, Eq, Default)]
pub struct PairsListRequest {
    pub after_pair: Option<String>,
    pub limit: Option<i64>,
    pub enabled_only: Option<bool>,
}

/// Bootstrap progress of a pair.
#[derive(Debug, Clone, PartialEq, Eq)]
pub struct PairStatusBootstrap {
    pub done: bool,
    pub harmonized: bool,
}

/// Run state of a pair.
#[derive(Debug, Clone, PartialEq, Eq)]
pub struct PairStatusStatusBlock {
    pub enabled: bool,
    pub run_state: String,
    pub last_error: Option<String>,
    pub initial_date_utc: String,
    pub bootstrap: PairStatusBootstrap,
}

/// Live ingestion state of a pair.
#[derive(Debug, Clone, PartialEq, Eq)]
pub struct PairStatusFrontierBlock {
    pub frontier_subscribed: bool,
    pub frontier_subscribed_at_utc: Option<String>,
    pub frontier_t0_pair_utc: Option<String>,
    pub frontier_last_status_update_utc: Option<String>,
    pub frontier_last_finalized_e_utc: Option<String>,
    pub frontier_enabled_venues_n: i64,
    pub frontier_connected_venues_n: i64,
    pub frontier_last_error: Option<String>,
}

/// Stored bar counts of a pair, one per timeframe.
#[derive(Debug, Clone, PartialEq, Eq)]
pub struct PairStatusCountsBlock {
    pub m1: i64,
    pub m5: i64,
    pub m15: i64,
    pub m30: i64,
    pub h1: i64,
    pub h4: i64,
    pub h6: i64,
    pub h12: i64,
    pub d1: i64,
}

/// Readiness of one timeframe.
#[derive(Debug, Clone, PartialEq, Eq)]
pub struct PairStatusReadinessCell {
    pub ready: bool,
    pub ready_at_utc: Option<String>,
}

/// Readiness of a pair, one cell per timeframe.
#[derive(Debug, Clone, PartialEq, Eq)]
pub struct PairStatusReadinessBlock {
    pub m1: PairStatusReadinessCell,
    pub m5: PairStatusReadinessCell,
    pub m15: PairStatusReadinessCell,
    pub m30: PairStatusReadinessCell,
    pub h1: PairStatusReadinessCell,
    pub h4: PairStatusReadinessCell,
    pub h6: PairStatusReadinessCell,
    pub h12: PairStatusReadinessCell,
    pub d1: PairStatusReadinessCell,
}

/// Coverage quantiles of the seeded history; each `f64` as its bits.
#[derive(Debug, Clone, PartialEq, Eq)]
pub struct PairStatusSeedQuality {
    pub coverage_p50_bits: Option<u64>,
    pub coverage_p95_bits: Option<u64>,
}

/// History seeding state of a pair.
#[derive(Debug, Clone, PartialEq, Eq)]
pub struct PairStatusHistoryBlock {
    pub seed_enabled: Option<bool>,
    pub seed_done: Option<bool>,
    pub seed_state: Option<String>,
    pub seed_target_end_utc: Option<String>,
    pub seed_cursor_end_utc: Option<String>,
    pub seed_last_error: Option<String>,
    pub seed_done_rule: Option<String>,
    pub seed_quality: PairStatusSeedQuality,
}

/// The status of one pair; the blocks the listing was filtered to, and the
/// coverage document as the service sent it.
#[derive(Debug, Clone, PartialEq, Eq)]
pub struct PairStatusRow {
    pub pair: String,
    pub status: Option<PairStatusStatusBlock>,
    pub history: Option<PairStatusHistoryBlock>,
    pub frontier: Option<PairStatusFrontierBlock>,
    pub counts: Option<PairStatusCountsBlock>,
    pub readiness: Option<PairStatusReadinessBlock>,
    pub coverage: Option<String>,
}

/// One page of the pair status listing.
#[derive(Debug, Clone, PartialEq, Eq)]
pub struct PairsStatusResponse {
    pub pairs: Vec<PairStatusRow>,
}

/// One page of the pair catalogue.
#[derive(Debug, Clone, PartialEq, Eq)]
pub struct PairsListResponse {
    pub pairs: Vec<String>,
    pub next_after_pair: Option<String>,
}

/// Which export files to list.
#[derive(Debug, Clone, PartialEq, Eq)]
pub struct FilesDownloadsRequest {
    pub period: Option<String>,
    pub pairs: Vec<String>,
    pub tfs: Vec<String>,
    pub start_label_utc: Option<String>,
    pub end_label_utc: Option<String>,
    pub order: Option<String>,
}

/// One downloadable export file.
#[derive(Debug, Clone, PartialEq, Eq)]
pub struct FilesDownloadsRow {
    pub period: String,
    pub pair: String,
    pub tf: String,
    pub label_utc: String,
    pub url: String,
    pub expires_at_utc: String,
}

/// The export files that matched.
#[derive(Debug, Clone, PartialEq, Eq)]
pub struct FilesDownloadsResponse {
    pub rows: Vec<FilesDownloadsRow>,
}

/// An export file written to local storage.
#[derive(Debug, Clone, PartialEq, Eq)]
pub struct DownloadedFile {
    pub row: FilesDownloadsRow,
    pub destination_path: String,
    pub bytes_written: u64,
}


/// The gRPC body of `latest` for bars.
#[derive(Debug, Clone, PartialEq)]
pub struct NormalizedLatestBarsGrpcRequest {
    pub pairs: Vec<String>,
    pub tf: String,
    pub latest_mode: String,
    pub metadata: bool,
}

impl LatestGrpcRequest {
    /// The gRPC body: pairs normalized, timeframe and mode by name, absent
    /// metadata as `false`; refused without pairs.
    pub fn to_proto(&self) -> (r: Result<NormalizedLatestBarsGrpcRequest, SdkError>)
        ensures
            has_pairs(self.pairs.deep_view()) ==> (r matches Ok(n) && n.pairs.deep_view()
                == trimmed_nonblank(self.pairs.deep_view()) && n.tf@ == crate::systems::types::timeframe_name(self.tf)
                && n.latest_mode@ == crate::systems::types::latest_mode_name(self.latest_mode) && n.metadata
                == (self.metadata == Some(true))),
            !has_pairs(self.pairs.deep_view()) ==> (r matches Err(SdkError::RequestBuild { message })
                && message@ == "latest bars"@ + " requires at least one pair"@),
    {
        let pairs = normalize_required_pair_values(&self.pairs, "latest bars")?;
        Ok(NormalizedLatestBarsGrpcRequest {
            pairs,
            tf: String::from_str(self.tf.as_str()),
            latest_mode: String::from_str(self.latest_mode.as_str()),
            metadata: self.metadata.unwrap_or(false),
        })
    }
}

} // verus!
