//! Time inputs: UTC milliseconds, RFC 3339 strings ending in `Z`, or the
//! compact `YYYY-MM-DD:HH:MM[:SS]` form. Offsets are refused, not guessed.
use vstd::prelude::*;
use crate::sdk_core::error::SdkError;
use crate::sdk_core::text::{str_chars, decimal_i64, i64_to_decimal};
use chrono::TimeZone;

verus! {

/// A time given as UTC milliseconds or as a UTC string.
#[derive(Debug, Clone, PartialEq, Eq)]
pub enum TimeInput {
    Ms(i64),
    Utc(String),
}

/// Whether chrono's `Utc.timestamp_millis_opt(value)` gives a single
/// instant: the milliseconds must fall within the range that chrono's
/// `DateTime::from_timestamp` turns into a date, whose last instant is the
/// last millisecond of 262142-12-31.
pub open spec fn chrono_utc_ms_valid(value: i64) -> bool {
    -8_334_601_228_800_000 <= value <= 8_210_266_876_799_999
}

/// The UTC milliseconds that chrono's `DateTime::parse_from_rfc3339` reads
/// from `value`, if it reads one.
pub uninterp spec fn chrono_rfc3339_utc_ms(value: Seq<char>) -> Option<i64>;

/// The UTC milliseconds that chrono's `NaiveDateTime::parse_from_str(value,
/// format)` reads, taken as UTC, if it reads one.
pub uninterp spec fn chrono_naive_utc_ms(value: Seq<char>, format: Seq<char>) -> Option<i64>;

/// chrono's `Utc.timestamp_millis_opt(value).single()`: the instant exists
/// exactly when the milliseconds fall in chrono's representable range.
#[verifier::external_body]
fn utc_ms_representable(value: i64) -> (r: bool)
    ensures
        r == chrono_utc_ms_valid(value),
{
    chrono::Utc.timestamp_millis_opt(value).single().is_some()
}

/// chrono's `DateTime::parse_from_rfc3339(value)`, converted to UTC
/// milliseconds; `None` when chrono refuses the text.
#[verifier::external_body]
fn rfc3339_utc_ms(value: &str) -> (r: Option<i64>)
    ensures
        r == chrono_rfc3339_utc_ms(value@),
{
    match chrono::DateTime::parse_from_rfc3339(value) {
        Ok(parsed) => Some(parsed.with_timezone(&chrono::Utc).timestamp_millis()),
        Err(_) => None,
    }
}

/// chrono's `NaiveDateTime::parse_from_str(value, format)`, read as UTC and
/// converted to milliseconds; `None` when chrono refuses the text.
#[verifier::external_body]
fn naive_utc_ms(value: &str, format: &str) -> (r: Option<i64>)
    ensures
        r == chrono_naive_utc_ms(value@, format@),
{
    match chrono::NaiveDateTime::parse_from_str(value, format) {
        Ok(parsed) => Some(chrono::Utc.from_utc_datetime(&parsed).timestamp_millis()),
        Err(_) => None,
    }
}

/// The compact form with minutes.
pub open spec fn compact_minutes_format() -> Seq<char> {
    "%Y-%m-%d:%H:%M"@
}

/// The compact form with seconds.
pub open spec fn compact_seconds_format() -> Seq<char> {
    "%Y-%m-%d:%H:%M:%S"@
}

pub open spec fn ends_with_z(v: Seq<char>) -> bool {
    v.len() > 0 && v.last() == 'Z'
}

pub open spec fn contains_char(v: Seq<char>, c: char) -> bool {
    exists|i: int| 0 <= i < v.len() && v[i] == c
}

/// A string with a `T` that carries an offset: a `+` anywhere, or a `-`
/// after the first `T`.
pub open spec fn has_offset_form(v: Seq<char>) -> bool {
    &&& contains_char(v, 'T')
    &&& (contains_char(v, '+') || exists|i: int, j: int|
        0 <= i < j < v.len() && v[i] == 'T' && v[j] == '-')
}

/// The UTC milliseconds of `value` given what chrono reads from it: the
/// RFC 3339 reading when the text ends in `Z` and chrono reads it; a refusal
/// for offset forms; else the compact reading with minutes, then with
/// seconds; else a refusal (`None`).
pub open spec fn utc_string_ms(
    value: Seq<char>,
    rfc3339: Option<i64>,
    compact_minutes: Option<i64>,
    compact_seconds: Option<i64>,
) -> Option<i64> {
    if ends_with_z(value) && rfc3339 is Some {
        rfc3339
    } else if has_offset_form(value) {
        None
    } else if compact_minutes is Some {
        compact_minutes
    } else {
        compact_seconds
    }
}

/// What `parse_utc_string_to_ms` gives for `value`.
pub open spec fn parse_utc_string_spec(value: Seq<char>) -> Option<i64> {
    utc_string_ms(
        value,
        if ends_with_z(value) { chrono_rfc3339_utc_ms(value) } else { None },
        chrono_naive_utc_ms(value, compact_minutes_format()),
        chrono_naive_utc_ms(value, compact_seconds_format()),
    )
}

/// What `TimeInput::to_utc_ms` gives.
pub open spec fn time_input_ms(t: TimeInput) -> Option<i64> {
    match t {
        TimeInput::Ms(v) => if chrono_utc_ms_valid(v) { Some(v) } else { None },
        TimeInput::Utc(s) => parse_utc_string_spec(s@),
    }
}

/// Ties a result to its expected value: `Ok` with that value, or an
/// invalid-time error with `message` when there is none.
pub open spec fn time_result_matches(r: Result<i64, SdkError>, expected: Option<i64>, message: Seq<char>) -> bool {
    match expected {
        Some(v) => r == Ok::<i64, SdkError>(v),
        None => r matches Err(SdkError::InvalidTimeInput { message: m }) && m@ == message,
    }
}

/// The message a refused string is reported with.
pub open spec fn unsupported_utc_message(value: Seq<char>) -> Seq<char> {
    "unsupported utc time input `"@ + value + "`"@
}

/// The message a refused millisecond count is reported with.
pub open spec fn invalid_ms_message(value: i64) -> Seq<char> {
    "invalid utc ms timestamp: "@ + decimal_i64(value)
}

/// The message a refused time input is reported with.
pub open spec fn time_input_message(t: TimeInput) -> Seq<char> {
    match t {
        TimeInput::Ms(v) => invalid_ms_message(v),
        TimeInput::Utc(s) => unsupported_utc_message(s@),
    }
}

impl TimeInput {
    /// The input as UTC milliseconds.
    pub fn to_utc_ms(&self) -> (r: Result<i64, SdkError>)
        ensures
            time_result_matches(r, time_input_ms(*self), time_input_message(*self)),
    {
        match self {
            TimeInput::Ms(value) => validate_utc_ms(*value),
            TimeInput::Utc(value) => parse_utc_string_to_ms(value.as_str()),
        }
    }
}

/// `value` back when chrono can represent it as an instant.
pub fn validate_utc_ms(value: i64) -> (r: Result<i64, SdkError>)
    ensures
        time_result_matches(
            r,
            if chrono_utc_ms_valid(value) { Some(value) } else { None },
            invalid_ms_message(value),
        ),
{
    if utc_ms_representable(value) {
        Ok(value)
    } else {
        let message = String::from_str("invalid utc ms timestamp: ").concat(i64_to_decimal(value).as_str());
        Err(SdkError::invalid_time_input(message))
    }
}

fn vec_ends_with(v: &Vec<char>, c: char) -> (r: bool)
    ensures
        r == (v@.len() > 0 && v@.last() == c),
{
    v.len() > 0 && v[v.len() - 1] == c
}

fn vec_contains(v: &Vec<char>, c: char) -> (r: bool)
    ensures
        r == contains_char(v@, c),
{
    let mut i: usize = 0;
    while i < v.len()
        invariant
            i <= v.len(),
            forall|k: int| 0 <= k < i ==> v@[k] != c,
        decreases v.len() - i,
    {
        if v[i] == c {
            return true;
        }
        i = i + 1;
    }
    false
}

fn vec_has_offset_form(v: &Vec<char>) -> (r: bool)
    ensures
        r == has_offset_form(v@),
{
    let mut seen_t = false;
    let mut dash_after_t = false;
    let mut i: usize = 0;
    while i < v.len()
        invariant
            i <= v.len(),
            seen_t == exists|k: int| 0 <= k < i && v@[k] == 'T',
            dash_after_t == exists|a: int, b: int| 0 <= a < b < i && v@[a] == 'T' && v@[b] == '-',
        decreases v.len() - i,
    {
        let ghost old_seen = seen_t;
        let ghost old_dash = dash_after_t;
        if v[i] == '-' && seen_t {
            dash_after_t = true;
        }
        if v[i] == 'T' {
            seen_t = true;
        }
        proof {
            let ii = i as int;
            assert(seen_t == exists|k: int| 0 <= k < ii + 1 && v@[k] == 'T') by {
                if exists|k: int| 0 <= k < ii + 1 && v@[k] == 'T' {
                    let k = choose|k: int| 0 <= k < ii + 1 && v@[k] == 'T';
                    if k < ii {
                        assert(old_seen);
                    }
                }
            }
            assert(dash_after_t == exists|a: int, b: int|
                0 <= a < b < ii + 1 && v@[a] == 'T' && v@[b] == '-') by {
                if exists|a: int, b: int| 0 <= a < b < ii + 1 && v@[a] == 'T' && v@[b] == '-' {
                    let (a, b) = choose|a: int, b: int|
                        0 <= a < b < ii + 1 && v@[a] == 'T' && v@[b] == '-';
                    if b < ii {
                        assert(old_dash);
                    } else {
                        assert(old_seen);
                    }
                }
                if dash_after_t && !old_dash {
                    let k = choose|k: int| 0 <= k < ii && v@[k] == 'T';
                    assert(0 <= k < ii < ii + 1 && v@[k] == 'T' && v@[ii] == '-');
                }
            }
        }
        i = i + 1;
    }
    let plus = vec_contains(v, '+');
    seen_t && (plus || dash_after_t)
}

/// The UTC milliseconds of `value`, given what chrono read from it (see
/// [`utc_string_ms`]).
pub fn resolve_utc_string(
    value: &str,
    rfc3339: Option<i64>,
    compact_minutes: Option<i64>,
    compact_seconds: Option<i64>,
) -> (r: Result<i64, SdkError>)
    ensures
        time_result_matches(
            r,
            utc_string_ms(value@, rfc3339, compact_minutes, compact_seconds),
            unsupported_utc_message(value@),
        ),
{
    let chars = str_chars(value);
    if vec_ends_with(&chars, 'Z') {
        if let Some(ms) = rfc3339 {
            return Ok(ms);
        }
    }
    if vec_has_offset_form(&chars) {
        return Err(unsupported_utc_input(value));
    }
    if let Some(ms) = compact_minutes {
        return Ok(ms);
    }
    if let Some(ms) = compact_seconds {
        return Ok(ms);
    }
    Err(unsupported_utc_input(value))
}

fn unsupported_utc_input(value: &str) -> (r: SdkError)
    ensures
        r matches SdkError::InvalidTimeInput { message } && message@ == unsupported_utc_message(value@),
{
    let message = String::from_str("unsupported utc time input `").concat(value).concat("`");
    SdkError::invalid_time_input(message)
}

/// The UTC milliseconds of a UTC string: RFC 3339 with a trailing `Z`, or
/// the compact `YYYY-MM-DD:HH:MM[:SS]` form; offset forms are refused.
pub fn parse_utc_string_to_ms(value: &str) -> (r: Result<i64, SdkError>)
    ensures
        time_result_matches(r, parse_utc_string_spec(value@), unsupported_utc_message(value@)),
{
    let chars = str_chars(value);
    let rfc3339 = if vec_ends_with(&chars, 'Z') {
        rfc3339_utc_ms(value)
    } else {
        None
    };
    let compact_minutes = naive_utc_ms(value, "%Y-%m-%d:%H:%M");
    let compact_seconds = naive_utc_ms(value, "%Y-%m-%d:%H:%M:%S");
    resolve_utc_string(value, rfc3339, compact_minutes, compact_seconds)
}


/// What an optional time input gives: `Some(None)` when absent,
/// `Some(Some(ms))` when it reads, `None` when it is refused.
pub open spec fn opt_time_input_ms(o: Option<TimeInput>) -> Option<Option<i64>> {
    match o {
        None => Some(None),
        Some(t) => match time_input_ms(t) {
            Some(v) => Some(Some(v)),
            None => None,
        },
    }
}

/// An optional time input as UTC milliseconds.
pub fn opt_to_utc_ms(o: &Option<TimeInput>) -> (r: Result<Option<i64>, SdkError>)
    ensures
        match opt_time_input_ms(*o) {
            Some(v) => r == Ok::<Option<i64>, SdkError>(v),
            None => r matches Err(SdkError::InvalidTimeInput { message }) && message@ == time_input_message(
                o.unwrap(),
            ),
        },
{
    match o {
        Some(t) => {
            let v = t.to_utc_ms()?;
            Ok(Some(v))
        },
        None => Ok(None),
    }
}


/// A UTC string with an offset and no trailing `Z` is refused: offsets are
/// never guessed.
pub proof fn law_offset_strings_refused(value: Seq<char>)
    requires
        has_offset_form(value),
        !ends_with_z(value),
    ensures
        parse_utc_string_spec(value) is None,
{
}

/// A string ending in `Z` that chrono reads as RFC 3339 gives that reading.
pub proof fn law_rfc3339_z_read_as_is(value: Seq<char>)
    requires
        ends_with_z(value),
        chrono_rfc3339_utc_ms(value) is Some,
    ensures
        parse_utc_string_spec(value) == chrono_rfc3339_utc_ms(value),
{
}

/// Milliseconds in chrono's range are taken as they are.
pub proof fn law_ms_input_kept(v: i64)
    requires
        chrono_utc_ms_valid(v),
    ensures
        time_input_ms(TimeInput::Ms(v)) == Some(v),
{
}

} // verus!
