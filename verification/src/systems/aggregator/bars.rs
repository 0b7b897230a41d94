//! Bar rows and the bars responses, checked against the shape the request
//! asked for. Float fields are carried as their IEEE-754 bit patterns.
use vstd::prelude::*;
use crate::sdk_core::error::SdkError;
use crate::sdk_core::pagination::str_eq;
use crate::systems::types::{BarsView, LatestMode, Timeframe, timeframe_name, latest_mode_name};

verus! {

/// The timeframe whose wire name is `s`.
pub open spec fn timeframe_from_name(s: Seq<char>) -> Option<Timeframe> {
    if s == "1m"@ {
        Some(Timeframe::M1)
    } else if s == "5m"@ {
        Some(Timeframe::M5)
    } else if s == "15m"@ {
        Some(Timeframe::M15)
    } else if s == "30m"@ {
        Some(Timeframe::M30)
    } else if s == "1h"@ {
        Some(Timeframe::H1)
    } else if s == "4h"@ {
        Some(Timeframe::H4)
    } else if s == "6h"@ {
        Some(Timeframe::H6)
    } else if s == "12h"@ {
        Some(Timeframe::H12)
    } else if s == "1d"@ {
        Some(Timeframe::D1)
    } else {
        None
    }
}

/// The latest mode whose wire name is `s`.
pub open spec fn latest_mode_from_name(s: Seq<char>) -> Option<LatestMode> {
    if s == "exact_watermark"@ {
        Some(LatestMode::ExactWatermark)
    } else if s == "latest_available_le_watermark"@ {
        Some(LatestMode::LatestAvailableLeWatermark)
    } else {
        None
    }
}

impl Timeframe {
    /// The timeframe named on the wire; an unknown name is contract drift.
    pub fn from_proto(value: &str) -> (r: Result<Timeframe, SdkError>)
        ensures
            timeframe_from_name(value@) matches Some(t) ==> r == Ok::<Timeframe, SdkError>(t),
            timeframe_from_name(value@) is None ==> (r matches Err(SdkError::ContractDrift { message })
                && message@ == "unsupported timeframe `"@ + value@ + "`"@),
    {
        if str_eq(value, "1m") {
            Ok(Timeframe::M1)
        } else if str_eq(value, "5m") {
            Ok(Timeframe::M5)
        } else if str_eq(value, "15m") {
            Ok(Timeframe::M15)
        } else if str_eq(value, "30m") {
            Ok(Timeframe::M30)
        } else if str_eq(value, "1h") {
            Ok(Timeframe::H1)
        } else if str_eq(value, "4h") {
            Ok(Timeframe::H4)
        } else if str_eq(value, "6h") {
            Ok(Timeframe::H6)
        } else if str_eq(value, "12h") {
            Ok(Timeframe::H12)
        } else if str_eq(value, "1d") {
            Ok(Timeframe::D1)
        } else {
            Err(
                SdkError::contract_drift(
                    String::from_str("unsupported timeframe `").concat(value).concat("`"),
                ),
            )
        }
    }
}

impl LatestMode {
    /// The latest mode named on the wire; an unknown name is contract drift.
    pub fn from_proto(value: &str) -> (r: Result<LatestMode, SdkError>)
        ensures
            latest_mode_from_name(value@) matches Some(m) ==> r == Ok::<LatestMode, SdkError>(m),
            latest_mode_from_name(value@) is None ==> (r matches Err(SdkError::ContractDrift { message })
                && message@ == "unsupported latest_mode `"@ + value@ + "`"@),
    {
        if str_eq(value, "exact_watermark") {
            Ok(LatestMode::ExactWatermark)
        } else if str_eq(value, "latest_available_le_watermark") {
            Ok(LatestMode::LatestAvailableLeWatermark)
        } else {
            Err(
                SdkError::contract_drift(
                    String::from_str("unsupported latest_mode `").concat(value).concat("`"),
                ),
            )
        }
    }
}

/// Provenance of a bar.
#[derive(Debug, Clone, PartialEq)]
pub struct BarMetadata {
    pub source: String,
    pub process: Option<String>,
    pub venues_expected: Option<Vec<String>>,
    pub venues_with_trades: Option<Vec<String>>,
    pub ingested_at_ms: Option<i64>,
    pub ingested_at_utc: Option<String>,
    pub target_ingested_at_ms: Option<i64>,
    pub target_ingested_at_utc: Option<String>,
    pub built_at_ms: Option<i64>,
    pub built_at_utc: Option<String>,
    pub committed_at_ms: Option<i64>,
    pub committed_at_utc: Option<String>,
    pub harmonized_at_ms: Option<i64>,
    pub harmonized_at_utc: Option<String>,
    pub recomputed_at_ms: Option<i64>,
    pub recomputed_at_utc: Option<String>,
    pub recomputed_reason: Option<String>,
    pub covered_1m_count: Option<i64>,
    pub expected_1m_count: Option<i64>,
    pub coverage_ratio_bits: Option<u64>,
    pub inputs_source_counts_frontier: Option<i64>,
    pub inputs_source_counts_api: Option<i64>,
    pub inputs_source_counts_synthetic: Option<i64>,
    pub inputs_source_counts_fix_data: Option<i64>,
    pub frontier_5s_inputs_coverage_ratio_bits: Option<u64>,
    pub frontier_5s_expected: Option<i64>,
    pub frontier_5s_synth_n: Option<i64>,
    pub frontier_5s_synth_ratio_bits: Option<u64>,
    pub frontier_5s_trade_n: Option<i64>,
    pub frontier_5s_trade_ratio_bits: Option<u64>,
}

/// Bar provenance as the protobuf message carries it: absent venue lists
/// arrive empty.
#[derive(Debug, Clone, PartialEq)]
pub struct BarMetadataWire {
    pub source: String,
    pub process: Option<String>,
    pub venues_expected: Vec<String>,
    pub venues_with_trades: Vec<String>,
    pub ingested_at_ms: Option<i64>,
    pub ingested_at_utc: Option<String>,
    pub target_ingested_at_ms: Option<i64>,
    pub target_ingested_at_utc: Option<String>,
    pub built_at_ms: Option<i64>,
    pub built_at_utc: Option<String>,
    pub committed_at_ms: Option<i64>,
    pub committed_at_utc: Option<String>,
    pub harmonized_at_ms: Option<i64>,
    pub harmonized_at_utc: Option<String>,
    pub recomputed_at_ms: Option<i64>,
    pub recomputed_at_utc: Option<String>,
    pub recomputed_reason: Option<String>,
    pub covered_1m_count: Option<i64>,
    pub expected_1m_count: Option<i64>,
    pub coverage_ratio_bits: Option<u64>,
    pub inputs_source_counts_frontier: Option<i64>,
    pub inputs_source_counts_api: Option<i64>,
    pub inputs_source_counts_synthetic: Option<i64>,
    pub inputs_source_counts_fix_data: Option<i64>,
    pub frontier_5s_inputs_coverage_ratio_bits: Option<u64>,
    pub frontier_5s_expected: Option<i64>,
    pub frontier_5s_synth_n: Option<i64>,
    pub frontier_5s_synth_ratio_bits: Option<u64>,
    pub frontier_5s_trade_n: Option<i64>,
    pub frontier_5s_trade_ratio_bits: Option<u64>,
}

/// An empty list read as absent.
pub open spec fn nonempty_or_none(v: Vec<String>) -> Option<Vec<String>> {
    if v@.len() == 0 {
        None
    } else {
        Some(v)
    }
}

/// The provenance a protobuf message stands for.
pub open spec fn metadata_from_wire(w: BarMetadataWire) -> BarMetadata {
    BarMetadata {
        source: w.source,
        process: w.process,
        venues_expected: nonempty_or_none(w.venues_expected),
        venues_with_trades: nonempty_or_none(w.venues_with_trades),
        ingested_at_ms: w.ingested_at_ms,
        ingested_at_utc: w.ingested_at_utc,
        target_ingested_at_ms: w.target_ingested_at_ms,
        target_ingested_at_utc: w.target_ingested_at_utc,
        built_at_ms: w.built_at_ms,
        built_at_utc: w.built_at_utc,
        committed_at_ms: w.committed_at_ms,
        committed_at_utc: w.committed_at_utc,
        harmonized_at_ms: w.harmonized_at_ms,
        harmonized_at_utc: w.harmonized_at_utc,
        recomputed_at_ms: w.recomputed_at_ms,
        recomputed_at_utc: w.recomputed_at_utc,
        recomputed_reason: w.recomputed_reason,
        covered_1m_count: w.covered_1m_count,
        expected_1m_count: w.expected_1m_count,
        coverage_ratio_bits: w.coverage_ratio_bits,
        inputs_source_counts_frontier: w.inputs_source_counts_frontier,
        inputs_source_counts_api: w.inputs_source_counts_api,
        inputs_source_counts_synthetic: w.inputs_source_counts_synthetic,
        inputs_source_counts_fix_data: w.inputs_source_counts_fix_data,
        frontier_5s_inputs_coverage_ratio_bits: w.frontier_5s_inputs_coverage_ratio_bits,
        frontier_5s_expected: w.frontier_5s_expected,
        frontier_5s_synth_n: w.frontier_5s_synth_n,
        frontier_5s_synth_ratio_bits: w.frontier_5s_synth_ratio_bits,
        frontier_5s_trade_n: w.frontier_5s_trade_n,
        frontier_5s_trade_ratio_bits: w.frontier_5s_trade_ratio_bits,
    }
}

/// An empty list read as absent.
fn nonempty_or_none_exec(v: Vec<String>) -> (r: Option<Vec<String>>)
    ensures
        r == nonempty_or_none(v),
{
    if v.len() == 0 {
        None
    } else {
        Some(v)
    }
}

impl BarMetadata {
    /// The provenance of a protobuf message: empty venue lists become absent.
    pub fn from_proto(value: BarMetadataWire) -> (r: BarMetadata)
        ensures
            r == metadata_from_wire(value),
    {
        let ghost w = value;
        let venues_expected = nonempty_or_none_exec(value.venues_expected);
        let venues_with_trades = nonempty_or_none_exec(value.venues_with_trades);
        BarMetadata {
            source: value.source,
            process: value.process,
            venues_expected,
            venues_with_trades,
            ingested_at_ms: value.ingested_at_ms,
            ingested_at_utc: value.ingested_at_utc,
            target_ingested_at_ms: value.target_ingested_at_ms,
            target_ingested_at_utc: value.target_ingested_at_utc,
            built_at_ms: value.built_at_ms,
            built_at_utc: value.built_at_utc,
            committed_at_ms: value.committed_at_ms,
            committed_at_utc: value.committed_at_utc,
            harmonized_at_ms: value.harmonized_at_ms,
            harmonized_at_utc: value.harmonized_at_utc,
            recomputed_at_ms: value.recomputed_at_ms,
            recomputed_at_utc: value.recomputed_at_utc,
            recomputed_reason: value.recomputed_reason,
            covered_1m_count: value.covered_1m_count,
            expected_1m_count: value.expected_1m_count,
            coverage_ratio_bits: value.coverage_ratio_bits,
            inputs_source_counts_frontier: value.inputs_source_counts_frontier,
            inputs_source_counts_api: value.inputs_source_counts_api,
            inputs_source_counts_synthetic: value.inputs_source_counts_synthetic,
            inputs_source_counts_fix_data: value.inputs_source_counts_fix_data,
            frontier_5s_inputs_coverage_ratio_bits: value.frontier_5s_inputs_coverage_ratio_bits,
            frontier_5s_expected: value.frontier_5s_expected,
            frontier_5s_synth_n: value.frontier_5s_synth_n,
            frontier_5s_synth_ratio_bits: value.frontier_5s_synth_ratio_bits,
            frontier_5s_trade_n: value.frontier_5s_trade_n,
            frontier_5s_trade_ratio_bits: value.frontier_5s_trade_ratio_bits,
        }
    }
}


/// A closed bar. Prices and volumes are IEEE-754 bit patterns.
#[derive(Debug, Clone, PartialEq)]
pub struct Bar {
    pub pair: String,
    pub tf: Timeframe,
    pub open_ms: i64,
    pub close_ms: i64,
    pub open_utc: String,
    pub close_utc: String,
    pub o: u64,
    pub h: u64,
    pub l: u64,
    pub c: u64,
    pub v: u64,
    pub quote_v: Option<u64>,
    pub taker_known_v: Option<u64>,
    pub taker_signed_v: Option<u64>,
    pub taker_known_quote_v: Option<u64>,
    pub taker_signed_quote_v: Option<u64>,
    pub taker_known_n: Option<i64>,
    pub taker_signed_n: Option<i64>,
    pub vw: Option<u64>,
    pub n: Option<i64>,
    pub age_ms: Option<i64>,
    pub metadata: Option<BarMetadata>,
}

/// A bar as the protobuf message carries it.
#[derive(Debug, Clone, PartialEq)]
pub struct BarRowWire {
    pub pair: String,
    pub tf: String,
    pub s_ms: i64,
    pub e_ms: i64,
    pub s_utc: Option<String>,
    pub e_utc: Option<String>,
    pub o: u64,
    pub h: u64,
    pub l: u64,
    pub c: u64,
    pub v: u64,
    pub quote_v: Option<u64>,
    pub taker_known_v: Option<u64>,
    pub taker_signed_v: Option<u64>,
    pub taker_known_quote_v: Option<u64>,
    pub taker_signed_quote_v: Option<u64>,
    pub taker_known_n: Option<i64>,
    pub taker_signed_n: Option<i64>,
    pub vw: Option<u64>,
    pub n: Option<i64>,
    pub metadata: Option<BarMetadataWire>,
}

/// The provenance of an optional protobuf message.
pub open spec fn opt_metadata_from_wire(m: Option<BarMetadataWire>) -> Option<BarMetadata> {
    match m {
        Some(w) => Some(metadata_from_wire(w)),
        None => None,
    }
}

/// The bar a protobuf row stands for, when its timeframe reads and both
/// timestamps are present.
pub open spec fn bar_from_wire(w: BarRowWire) -> Option<Bar> {
    match (timeframe_from_name(w.tf@), w.s_utc, w.e_utc) {
        (Some(tf), Some(open_utc), Some(close_utc)) => Some(
            Bar {
                pair: w.pair,
                tf,
                open_ms: w.s_ms,
                close_ms: w.e_ms,
                open_utc,
                close_utc,
                o: w.o,
                h: w.h,
                l: w.l,
                c: w.c,
                v: w.v,
                quote_v: w.quote_v,
                taker_known_v: w.taker_known_v,
                taker_signed_v: w.taker_signed_v,
                taker_known_quote_v: w.taker_known_quote_v,
                taker_signed_quote_v: w.taker_signed_quote_v,
                taker_known_n: w.taker_known_n,
                taker_signed_n: w.taker_signed_n,
                vw: w.vw,
                n: w.n,
                age_ms: None,
                metadata: opt_metadata_from_wire(w.metadata),
            },
        ),
        _ => None,
    }
}

/// Why a protobuf row does not stand for a bar.
pub open spec fn bar_wire_error(w: BarRowWire) -> Seq<char> {
    if timeframe_from_name(w.tf@) is None {
        "unsupported timeframe `"@ + w.tf@ + "`"@
    } else if w.s_utc is None {
        "bar protobuf row missing `s_utc`"@
    } else {
        "bar protobuf row missing `e_utc`"@
    }
}

/// Whether a row's metadata is present exactly when it was asked for.
pub open spec fn metadata_shape_ok(b: Bar, metadata_required: bool) -> bool {
    b.metadata is Some == metadata_required
}

/// The message a row of the wrong metadata shape is reported with.
pub open spec fn metadata_shape_message(metadata_required: bool, context: Seq<char>) -> Seq<char> {
    if metadata_required {
        context + " missing `metadata`"@
    } else {
        context + " unexpectedly included `metadata`"@
    }
}

/// Whether `r` is the contract drift reported with `message`.
pub open spec fn drift_with(r: Result<(), SdkError>, message: Seq<char>) -> bool {
    r matches Err(SdkError::ContractDrift { message: m }) && m@ == message
}

impl Bar {
    /// Ok when metadata is present exactly when it is required.
    pub fn ensure_metadata_shape(&self, metadata_required: bool, context: &str) -> (r: Result<
        (),
        SdkError,
    >)
        ensures
            r is Ok <==> metadata_shape_ok(*self, metadata_required),
            metadata_required && self.metadata is None ==> (r matches Err(
                SdkError::ContractDrift { message },
            ) && message@ == context@ + " missing `metadata`"@),
            !metadata_required && self.metadata is Some ==> (r matches Err(
                SdkError::ContractDrift { message },
            ) && message@ == context@ + " unexpectedly included `metadata`"@),
    {
        match (metadata_required, self.metadata.is_some()) {
            (true, false) => Err(
                SdkError::contract_drift(String::from_str(context).concat(" missing `metadata`")),
            ),
            (false, true) => Err(
                SdkError::contract_drift(
                    String::from_str(context).concat(" unexpectedly included `metadata`"),
                ),
            ),
            _ => Ok(()),
        }
    }

    /// The bar of a protobuf row.
    pub fn from_proto(value: BarRowWire) -> (r: Result<Bar, SdkError>)
        ensures
            bar_from_wire(value) matches Some(b) ==> r == Ok::<Bar, SdkError>(b),
            bar_from_wire(value) is None ==> (r matches Err(SdkError::ContractDrift { message })
                && message@ == bar_wire_error(value)),
            r matches Ok(b) ==> (b.pair == value.pair && b.open_ms == value.s_ms && b.close_ms == value.e_ms && b.o == value.o && b.h == value.h && b.l == value.l && b.c == value.c && b.v == value.v && b.quote_v == value.quote_v && b.taker_known_v == value.taker_known_v && b.taker_signed_v == value.taker_signed_v && b.taker_known_quote_v == value.taker_known_quote_v && b.taker_signed_quote_v == value.taker_signed_quote_v && b.taker_known_n == value.taker_known_n && b.taker_signed_n == value.taker_signed_n && b.vw == value.vw && b.n == value.n),
    {
        let ghost w = value;
        let tf = Timeframe::from_proto(value.tf.as_str())?;
        let open_utc = match value.s_utc {
            Some(s) => s,
            None => {
                return Err(
                    SdkError::contract_drift(String::from_str("bar protobuf row missing `s_utc`")),
                );
            },
        };
        let close_utc = match value.e_utc {
            Some(s) => s,
            None => {
                return Err(
                    SdkError::contract_drift(String::from_str("bar protobuf row missing `e_utc`")),
                );
            },
        };
        let metadata = match value.metadata {
            Some(m) => Some(BarMetadata::from_proto(m)),
            None => None,
        };
        Ok(Bar {
            pair: value.pair,
            tf,
            open_ms: value.s_ms,
            close_ms: value.e_ms,
            open_utc,
            close_utc,
            o: value.o,
            h: value.h,
            l: value.l,
            c: value.c,
            v: value.v,
            quote_v: value.quote_v,
            taker_known_v: value.taker_known_v,
            taker_signed_v: value.taker_signed_v,
            taker_known_quote_v: value.taker_known_quote_v,
            taker_signed_quote_v: value.taker_signed_quote_v,
            taker_known_n: value.taker_known_n,
            taker_signed_n: value.taker_signed_n,
            vw: value.vw,
            n: value.n,
            age_ms: None,
            metadata,
        })
    }

    /// The bar of a `latest` protobuf row, with its age.
    pub fn from_proto_latest(value: BarsPresentRowWire) -> (r: Result<Bar, SdkError>)
        ensures
            latest_bar_from_wire(value) matches Some(b) ==> r == Ok::<Bar, SdkError>(b),
            latest_bar_from_wire(value) is None ==> r matches Err(SdkError::ContractDrift { .. }),
    {
        let row = match value.bar {
            Some(b) => b,
            None => {
                return Err(
                    SdkError::contract_drift(
                        String::from_str("latest bars protobuf row missing `bar`"),
                    ),
                );
            },
        };
        let mut bar = Bar::from_proto(row)?;
        match value.age_ms {
            Some(age) => {
                bar.age_ms = Some(age);
                Ok(bar)
            },
            None => Err(
                SdkError::contract_drift(
                    String::from_str("latest bars protobuf row missing `age_ms`"),
                ),
            ),
        }
    }
}

/// A `latest` protobuf row: the bar and its age.
#[derive(Debug, Clone, PartialEq)]
pub struct BarsPresentRowWire {
    pub bar: Option<BarRowWire>,
    pub age_ms: Option<i64>,
}

/// The bar a `latest` protobuf row stands for.
pub open spec fn latest_bar_from_wire(w: BarsPresentRowWire) -> Option<Bar> {
    match (w.bar, w.age_ms) {
        (Some(row), Some(age)) => match bar_from_wire(row) {
            Some(b) => Some(Bar { age_ms: Some(age), ..b }),
            None => None,
        },
        _ => None,
    }
}


/// Whether every protobuf row stands for a bar.
pub open spec fn all_bars_read(rows: Seq<BarRowWire>) -> bool {
    forall|i: int| 0 <= i < rows.len() ==> (#[trigger] bar_from_wire(rows[i])) is Some
}

/// The bars the protobuf rows stand for, in order.
pub open spec fn bars_from_wire(rows: Seq<BarRowWire>) -> Seq<Bar> {
    Seq::new(rows.len(), |i: int| bar_from_wire(rows[i]).unwrap())
}

/// Whether every bar carries metadata exactly when it is required.
pub open spec fn all_metadata_shapes_ok(rows: Seq<Bar>, metadata_required: bool) -> bool {
    forall|i: int| 0 <= i < rows.len() ==> #[trigger] metadata_shape_ok(rows[i], metadata_required)
}

/// The bars of protobuf rows, in order; the first row that does not read
/// refuses the lot.
pub fn bars_from_proto(rows: Vec<BarRowWire>) -> (r: Result<Vec<Bar>, SdkError>)
    ensures
        all_bars_read(rows@) ==> (r matches Ok(v) && v@ == bars_from_wire(rows@)),
        !all_bars_read(rows@) ==> r matches Err(SdkError::ContractDrift { .. }),
{
    let ghost orig = rows@;
    let mut rest = rows;
    let mut out: Vec<Bar> = Vec::new();
    let n = rest.len();
    let mut k: usize = 0;
    while k < n
        invariant
            orig == rows@,
            n == orig.len(),
            k <= n,
            rest@ == orig.subrange(k as int, n as int),
            out@.len() == k,
            forall|i: int| 0 <= i < k ==> (#[trigger] bar_from_wire(orig[i])) is Some,
            forall|i: int| 0 <= i < k ==> out@[i] == bar_from_wire(orig[i]).unwrap(),
        decreases n - k,
    {
        let row = rest.remove(0);
        assert(row == orig[k as int]);
        let bar = match Bar::from_proto(row) {
            Ok(b) => b,
            Err(e) => {
                assert(bar_from_wire(orig[k as int]) is None);
                assert(!all_bars_read(orig));
                return Err(e);
            },
        };
        out.push(bar);
        k = k + 1;
        assert(rest@ =~= orig.subrange(k as int, n as int));
    }
    assert(out@ =~= bars_from_wire(orig));
    Ok(out)
}

/// Ok when every bar carries metadata exactly when it is required.
pub fn validate_bars_metadata(rows: &Vec<Bar>, metadata_required: bool, context: &str) -> (r: Result<
    (),
    SdkError,
>)
    ensures
        r is Ok <==> all_metadata_shapes_ok(rows@, metadata_required),
        r is Err ==> drift_with(r, metadata_shape_message(metadata_required, context@)),
{
    let mut i: usize = 0;
    while i < rows.len()
        invariant
            i <= rows.len(),
            forall|j: int| 0 <= j < i ==> #[trigger] metadata_shape_ok(rows@[j], metadata_required),
        decreases rows.len() - i,
    {
        let checked = rows[i].ensure_metadata_shape(metadata_required, context);
        if checked.is_err() {
            assert(!metadata_shape_ok(rows@[i as int], metadata_required));
            return checked;
        }
        i = i + 1;
    }
    Ok(())
}

/// One page of a bars `range` read.
#[derive(Debug, Clone, PartialEq)]
pub struct RangeResponse {
    pub rows: Vec<Bar>,
    pub close_end_ms: i64,
    pub next_cursor: Option<String>,
}

/// A `range` page as the protobuf message carries it.
#[derive(Debug, Clone, PartialEq)]
pub struct BarsRangeResponseWire {
    pub rows: Vec<BarRowWire>,
    pub close_end_ms: i64,
    pub next_cursor: Option<String>,
}

/// Every page a bars `range` traversal fetched.
#[derive(Debug, Clone, PartialEq)]
pub struct RangeTraverseResult {
    pub pages: Vec<RangeResponse>,
    pub pages_fetched: usize,
}

impl RangeResponse {
    /// The cursor of the next page, if any.
    pub fn next_cursor(&self) -> (r: Option<&str>)
        ensures
            match r {
                Some(c) => self.next_cursor matches Some(s) && c@ == s@,
                None => self.next_cursor is None,
            },
    {
        match &self.next_cursor {
            Some(s) => Some(s.as_str()),
            None => None,
        }
    }

    /// The end of the window this page belongs to.
    pub fn close_end_ms(&self) -> (r: i64)
        ensures
            r == self.close_end_ms,
    {
        self.close_end_ms
    }

    /// Whether this is the last page.
    pub fn done(&self) -> (r: bool)
        ensures
            r == self.next_cursor is None,
    {
        self.next_cursor.is_none()
    }

    /// Ok when every row carries metadata exactly when it is required.
    pub fn validate_metadata(&self, metadata_required: bool) -> (r: Result<(), SdkError>)
        ensures
            r is Ok <==> all_metadata_shapes_ok(self.rows@, metadata_required),
            r is Err ==> drift_with(r, metadata_shape_message(metadata_required, "range bars response row"@)),
    {
        validate_bars_metadata(&self.rows, metadata_required, "range bars response row")
    }

    /// The page a protobuf message stands for, checked against whether
    /// metadata was asked for.
    pub fn from_proto(response: BarsRangeResponseWire, metadata: bool) -> (r: Result<Self, SdkError>)
        ensures
            all_bars_read(response.rows@) && all_metadata_shapes_ok(
                bars_from_wire(response.rows@),
                metadata,
            ) ==> (r matches Ok(p) && p.rows@ == bars_from_wire(response.rows@) && p.close_end_ms
                == response.close_end_ms && p.next_cursor == response.next_cursor),
            !(all_bars_read(response.rows@) && all_metadata_shapes_ok(
                bars_from_wire(response.rows@),
                metadata,
            )) ==> r matches Err(SdkError::ContractDrift { .. }),
    {
        let rows = bars_from_proto(response.rows)?;
        let page = RangeResponse {
            rows,
            close_end_ms: response.close_end_ms,
            next_cursor: response.next_cursor,
        };
        page.validate_metadata(metadata)?;
        Ok(page)
    }
}

/// One page of a bars `search`.
#[derive(Debug, Clone, PartialEq)]
pub struct SearchResponse {
    pub hits: Vec<i64>,
    pub evaluated_rows: Option<Vec<Bar>>,
    pub next_cursor: Option<String>,
    pub done: bool,
    pub returned_hits: i64,
    pub effective_hits_limit: i64,
    pub truncated: bool,
    pub predicate_pairs: Vec<String>,
    pub predicate_normalized: String,
}

/// A `search` page as the protobuf message carries it.
#[derive(Debug, Clone, PartialEq)]
pub struct BarsSearchResponseWire {
    pub hits: Vec<i64>,
    pub evaluated_rows: Vec<BarRowWire>,
    pub next_cursor: Option<String>,
    pub done: bool,
    pub returned_hits: i64,
    pub effective_hits_limit: i64,
    pub truncated: bool,
    pub predicate_pairs: Vec<String>,
    pub predicate_normalized: String,
}

/// Every page a bars `search` traversal fetched.
#[derive(Debug, Clone, PartialEq)]
pub struct SearchTraverseResult {
    pub pages: Vec<SearchResponse>,
    pub pages_fetched: usize,
}

/// Whether the evaluated rows, if any, carry metadata as required.
pub open spec fn opt_metadata_shapes_ok(rows: Option<Vec<Bar>>, metadata_required: bool) -> bool {
    match rows {
        Some(v) => all_metadata_shapes_ok(v@, metadata_required),
        None => true,
    }
}

impl SearchResponse {
    /// The cursor of the next page, if any.
    pub fn next_cursor(&self) -> (r: Option<&str>)
        ensures
            match r {
                Some(c) => self.next_cursor matches Some(s) && c@ == s@,
                None => self.next_cursor is None,
            },
    {
        match &self.next_cursor {
            Some(s) => Some(s.as_str()),
            None => None,
        }
    }

    /// Whether the search is finished.
    pub fn done(&self) -> (r: bool)
        ensures
            r == self.done,
    {
        self.done
    }

    /// Ok when every evaluated row carries metadata exactly when required.
    pub fn validate_metadata(&self, metadata_required: bool) -> (r: Result<(), SdkError>)
        ensures
            r is Ok <==> opt_metadata_shapes_ok(self.evaluated_rows, metadata_required),
            r is Err ==> drift_with(r, metadata_shape_message(metadata_required, "search bars response row"@)),
    {
        match &self.evaluated_rows {
            Some(rows) => validate_bars_metadata(rows, metadata_required, "search bars response row"),
            None => Ok(()),
        }
    }

    /// The page a protobuf message stands for: no evaluated rows read as
    /// absent; checked against whether metadata was asked for.
    pub fn from_proto(response: BarsSearchResponseWire, metadata: bool) -> (r: Result<
        Self,
        SdkError,
    >)
        ensures
            all_bars_read(response.evaluated_rows@) && all_metadata_shapes_ok(
                bars_from_wire(response.evaluated_rows@),
                metadata,
            ) ==> (r matches Ok(p) && (if response.evaluated_rows@.len() == 0 {
                p.evaluated_rows is None
            } else {
                p.evaluated_rows matches Some(v) && v@ == bars_from_wire(response.evaluated_rows@)
            }) && p.hits == response.hits && p.next_cursor == response.next_cursor && p.done
                == response.done && p.returned_hits == response.returned_hits
                && p.effective_hits_limit == response.effective_hits_limit && p.truncated
                == response.truncated && p.predicate_pairs == response.predicate_pairs
                && p.predicate_normalized == response.predicate_normalized),
            !(all_bars_read(response.evaluated_rows@) && all_metadata_shapes_ok(
                bars_from_wire(response.evaluated_rows@),
                metadata,
            )) ==> r matches Err(SdkError::ContractDrift { .. }),
    {
        let evaluated_rows = if response.evaluated_rows.len() == 0 {
            proof {
                assert(bars_from_wire(response.evaluated_rows@).len() == 0);
            }
            None
        } else {
            Some(bars_from_proto(response.evaluated_rows)?)
        };
        let page = SearchResponse {
            hits: response.hits,
            evaluated_rows,
            next_cursor: response.next_cursor,
            done: response.done,
            returned_hits: response.returned_hits,
            effective_hits_limit: response.effective_hits_limit,
            truncated: response.truncated,
            predicate_pairs: response.predicate_pairs,
            predicate_normalized: response.predicate_normalized,
        };
        page.validate_metadata(metadata)?;
        Ok(page)
    }
}


/// A bar around a hit of a bars `time_machine` read.
#[derive(Debug, Clone, PartialEq)]
pub struct TimeMachineBarsRow {
    pub hit_close_ms: i64,
    pub offset: i64,
    pub bar: Bar,
}

/// A `time_machine` row as the protobuf message carries it.
#[derive(Debug, Clone, PartialEq)]
pub struct BarsTimeMachineRowWire {
    pub hit_close_ms: i64,
    pub offset: i64,
    pub bar: Option<BarRowWire>,
}

/// The row a protobuf `time_machine` row stands for.
pub open spec fn tm_row_from_wire(w: BarsTimeMachineRowWire) -> Option<TimeMachineBarsRow> {
    match w.bar {
        Some(row) => match bar_from_wire(row) {
            Some(bar) => Some(TimeMachineBarsRow { hit_close_ms: w.hit_close_ms, offset: w.offset, bar }),
            None => None,
        },
        None => None,
    }
}

impl TimeMachineBarsRow {
    /// The row of a protobuf `time_machine` row; a missing bar is contract drift.
    pub fn from_proto(value: BarsTimeMachineRowWire) -> (r: Result<Self, SdkError>)
        ensures
            tm_row_from_wire(value) matches Some(t) ==> r == Ok::<Self, SdkError>(t),
            tm_row_from_wire(value) is None ==> r matches Err(SdkError::ContractDrift { .. }),
            r matches Ok(t) ==> t.hit_close_ms == value.hit_close_ms && t.offset == value.offset,
    {
        let row = match value.bar {
            Some(b) => b,
            None => {
                return Err(
                    SdkError::contract_drift(
                        String::from_str("time-machine protobuf row missing `bar`"),
                    ),
                );
            },
        };
        let bar = Bar::from_proto(row)?;
        Ok(TimeMachineBarsRow { hit_close_ms: value.hit_close_ms, offset: value.offset, bar })
    }
}

/// Whether every protobuf `time_machine` row reads.
pub open spec fn all_tm_rows_read(rows: Seq<BarsTimeMachineRowWire>) -> bool {
    forall|i: int| 0 <= i < rows.len() ==> (#[trigger] tm_row_from_wire(rows[i])) is Some
}

/// The `time_machine` rows the protobuf rows stand for, in order.
pub open spec fn tm_rows_from_wire(rows: Seq<BarsTimeMachineRowWire>) -> Seq<TimeMachineBarsRow> {
    Seq::new(rows.len(), |i: int| tm_row_from_wire(rows[i]).unwrap())
}

/// Whether every `time_machine` bar carries metadata exactly when required.
pub open spec fn tm_metadata_shapes_ok(rows: Seq<TimeMachineBarsRow>, metadata_required: bool) -> bool {
    forall|i: int| 0 <= i < rows.len() ==> #[trigger] metadata_shape_ok(rows[i].bar, metadata_required)
}

/// One page of a bars `time_machine` read.
#[derive(Debug, Clone, PartialEq)]
pub struct TimeMachineResponse {
    pub rows: Vec<TimeMachineBarsRow>,
    pub next_cursor: Option<String>,
    pub done: bool,
    pub returned_hits: i64,
    pub effective_hits_limit: i64,
    pub truncated: bool,
    pub predicate_pairs: Vec<String>,
    pub predicate_normalized: Option<String>,
}

/// A `time_machine` page as the protobuf message carries it.
#[derive(Debug, Clone, PartialEq)]
pub struct BarsTimeMachineResponseWire {
    pub rows: Vec<BarsTimeMachineRowWire>,
    pub next_cursor: Option<String>,
    pub done: bool,
    pub returned_hits: i64,
    pub effective_hits_limit: i64,
    pub truncated: bool,
    pub predicate_pairs: Vec<String>,
    pub predicate_normalized: Option<String>,
}

/// Every page a bars `time_machine` traversal fetched.
#[derive(Debug, Clone, PartialEq)]
pub struct TimeMachineTraverseResult {
    pub pages: Vec<TimeMachineResponse>,
    pub pages_fetched: usize,
}

/// The rows of protobuf `time_machine` rows, in order; the first that does
/// not read refuses the lot.
pub fn tm_rows_from_proto(rows: Vec<BarsTimeMachineRowWire>) -> (r: Result<
    Vec<TimeMachineBarsRow>,
    SdkError,
>)
    ensures
        all_tm_rows_read(rows@) ==> (r matches Ok(v) && v@ == tm_rows_from_wire(rows@)),
        !all_tm_rows_read(rows@) ==> r matches Err(SdkError::ContractDrift { .. }),
{
    let ghost orig = rows@;
    let mut rest = rows;
    let mut out: Vec<TimeMachineBarsRow> = Vec::new();
    let n = rest.len();
    let mut k: usize = 0;
    while k < n
        invariant
            orig == rows@,
            n == orig.len(),
            k <= n,
            rest@ == orig.subrange(k as int, n as int),
            out@.len() == k,
            forall|i: int| 0 <= i < k ==> (#[trigger] tm_row_from_wire(orig[i])) is Some,
            forall|i: int| 0 <= i < k ==> out@[i] == tm_row_from_wire(orig[i]).unwrap(),
        decreases n - k,
    {
        let row = rest.remove(0);
        assert(row == orig[k as int]);
        let item = match TimeMachineBarsRow::from_proto(row) {
            Ok(t) => t,
            Err(e) => {
                assert(tm_row_from_wire(orig[k as int]) is None);
                assert(!all_tm_rows_read(orig));
                return Err(e);
            },
        };
        out.push(item);
        k = k + 1;
        assert(rest@ =~= orig.subrange(k as int, n as int));
    }
    assert(out@ =~= tm_rows_from_wire(orig));
    Ok(out)
}

impl TimeMachineResponse {
    /// The cursor of the next page, if any.
    pub fn next_cursor(&self) -> (r: Option<&str>)
        ensures
            match r {
                Some(c) => self.next_cursor matches Some(s) && c@ == s@,
                None => self.next_cursor is None,
            },
    {
        match &self.next_cursor {
            Some(s) => Some(s.as_str()),
            None => None,
        }
    }

    /// Whether the read is finished.
    pub fn done(&self) -> (r: bool)
        ensures
            r == self.done,
    {
        self.done
    }

    /// Ok when every bar carries metadata exactly when it is required.
    pub fn validate_metadata(&self, metadata_required: bool) -> (r: Result<(), SdkError>)
        ensures
            r is Ok <==> tm_metadata_shapes_ok(self.rows@, metadata_required),
            r is Err ==> drift_with(r, metadata_shape_message(metadata_required, "time-machine bars response row"@)),
    {
        let mut i: usize = 0;
        while i < self.rows.len()
            invariant
                i <= self.rows.len(),
                forall|j: int| 0 <= j < i ==> #[trigger] metadata_shape_ok(
                    self.rows@[j].bar,
                    metadata_required,
                ),
            decreases self.rows.len() - i,
        {
            let checked = self.rows[i].bar.ensure_metadata_shape(
                metadata_required,
                "time-machine bars response row",
            );
            if checked.is_err() {
                assert(!metadata_shape_ok(self.rows@[i as int].bar, metadata_required));
                return checked;
            }
            i = i + 1;
        }
        Ok(())
    }

    /// The page a protobuf message stands for, checked against whether
    /// metadata was asked for.
    pub fn from_proto(response: BarsTimeMachineResponseWire, metadata: bool) -> (r: Result<
        Self,
        SdkError,
    >)
        ensures
            all_tm_rows_read(response.rows@) && tm_metadata_shapes_ok(
                tm_rows_from_wire(response.rows@),
                metadata,
            ) ==> (r matches Ok(p) && p.rows@ == tm_rows_from_wire(response.rows@) && p.next_cursor
                == response.next_cursor && p.done == response.done && p.returned_hits
                == response.returned_hits && p.effective_hits_limit == response.effective_hits_limit
                && p.truncated == response.truncated && p.predicate_pairs == response.predicate_pairs
                && p.predicate_normalized == response.predicate_normalized),
            !(all_tm_rows_read(response.rows@) && tm_metadata_shapes_ok(
                tm_rows_from_wire(response.rows@),
                metadata,
            )) ==> r matches Err(SdkError::ContractDrift { .. }),
    {
        let rows = tm_rows_from_proto(response.rows)?;
        let page = TimeMachineResponse {
            rows,
            next_cursor: response.next_cursor,
            done: response.done,
            returned_hits: response.returned_hits,
            effective_hits_limit: response.effective_hits_limit,
            truncated: response.truncated,
            predicate_pairs: response.predicate_pairs,
            predicate_normalized: response.predicate_normalized,
        };
        page.validate_metadata(metadata)?;
        Ok(page)
    }
}

/// The view a `latest` protobuf message declares.
#[derive(Debug, Clone, Copy, PartialEq, Eq, Structural)]
pub enum ProtoBarsView {
    Unspecified,
    Min,
    Full,
    Unknown,
}

/// A bars `latest` snapshot.
#[derive(Debug, Clone, PartialEq)]
pub struct LatestResponse {
    pub watermark_end_ms: i64,
    pub close_end_ms: i64,
    pub latest_mode: LatestMode,
    pub view: BarsView,
    pub rows: Vec<Bar>,
    pub missing_pairs: Vec<String>,
}

/// A `latest` snapshot as the protobuf message carries it.
#[derive(Debug, Clone, PartialEq)]
pub struct BarsLatestResponseWire {
    pub watermark_end_ms: i64,
    pub close_end_ms: i64,
    pub latest_mode: String,
    pub view: ProtoBarsView,
    pub rows: Vec<BarsPresentRowWire>,
    pub missing_pairs: Vec<String>,
}

/// Whether a `latest` row has the shape its view asks for: metadata
/// exactly in the full view, and an age.
pub open spec fn latest_row_ok(b: Bar, view: BarsView) -> bool {
    metadata_shape_ok(b, view == BarsView::Full) && b.age_ms is Some
}

/// The context a `latest` row of this view is reported in.
pub open spec fn latest_row_context(view: BarsView) -> Seq<char> {
    if view == BarsView::Full {
        "latest bars full response row"@
    } else {
        "latest bars min response row"@
    }
}

/// The message a `latest` row of the wrong shape is reported with.
pub open spec fn latest_row_message(b: Bar, view: BarsView) -> Seq<char> {
    if !metadata_shape_ok(b, view == BarsView::Full) {
        metadata_shape_message(view == BarsView::Full, latest_row_context(view))
    } else {
        latest_row_context(view) + " missing `age_ms`"@
    }
}

/// Whether every `latest` row has the shape its view asks for.
pub open spec fn latest_rows_ok(rows: Seq<Bar>, view: BarsView) -> bool {
    forall|i: int| 0 <= i < rows.len() ==> #[trigger] latest_row_ok(rows[i], view)
}

/// Whether every `latest` protobuf row reads.
pub open spec fn all_latest_rows_read(rows: Seq<BarsPresentRowWire>) -> bool {
    forall|i: int| 0 <= i < rows.len() ==> (#[trigger] latest_bar_from_wire(rows[i])) is Some
}

/// The bars the `latest` protobuf rows stand for, in order.
pub open spec fn latest_bars_from_wire(rows: Seq<BarsPresentRowWire>) -> Seq<Bar> {
    Seq::new(rows.len(), |i: int| latest_bar_from_wire(rows[i]).unwrap())
}

/// The view a protobuf `latest` message stands for.
pub open spec fn view_from_proto(v: ProtoBarsView) -> Option<BarsView> {
    match v {
        ProtoBarsView::Min => Some(BarsView::Min),
        ProtoBarsView::Full => Some(BarsView::Full),
        _ => None,
    }
}

/// Whether a protobuf `latest` message stands for a snapshot.
pub open spec fn latest_wire_ok(w: BarsLatestResponseWire) -> bool {
    &&& view_from_proto(w.view) is Some
    &&& latest_mode_from_name(w.latest_mode@) is Some
    &&& all_latest_rows_read(w.rows@)
    &&& latest_rows_ok(latest_bars_from_wire(w.rows@), view_from_proto(w.view).unwrap())
}

impl LatestResponse {
    /// Ok when every row has the shape the snapshot's view asks for.
    pub fn validate_view(&self) -> (r: Result<(), SdkError>)
        ensures
            r is Ok <==> latest_rows_ok(self.rows@, self.view),
            r is Err ==> exists|i: int|
                0 <= i < self.rows@.len() && !latest_row_ok(#[trigger] self.rows@[i], self.view) && (forall|j: int|
                    0 <= j < i ==> latest_row_ok(#[trigger] self.rows@[j], self.view)) && drift_with(
                    r,
                    latest_row_message(self.rows@[i], self.view),
                ),
    {
        let metadata_required = match self.view {
            BarsView::Full => true,
            BarsView::Min => false,
        };
        let context = if metadata_required {
            "latest bars full response row"
        } else {
            "latest bars min response row"
        };
        let mut i: usize = 0;
        while i < self.rows.len()
            invariant
                i <= self.rows.len(),
                metadata_required == (self.view == BarsView::Full),
                context@ == latest_row_context(self.view),
                forall|j: int| 0 <= j < i ==> #[trigger] latest_row_ok(self.rows@[j], self.view),
            decreases self.rows.len() - i,
        {
            let checked = self.rows[i].ensure_metadata_shape(metadata_required, context);
            if checked.is_err() {
                assert(!latest_row_ok(self.rows@[i as int], self.view));
                assert(drift_with(checked, latest_row_message(self.rows@[i as int], self.view)));
                return checked;
            }
            if self.rows[i].age_ms.is_none() {
                assert(!latest_row_ok(self.rows@[i as int], self.view));
                return Err(
                    SdkError::contract_drift(String::from_str(context).concat(" missing `age_ms`")),
                );
            }
            i = i + 1;
        }
        Ok(())
    }

    /// The snapshot a protobuf message stands for; an unspecified or
    /// unknown view, an unknown latest mode, a row that does not read or a
    /// row of the wrong shape is contract drift.
    pub fn from_proto(response: BarsLatestResponseWire) -> (r: Result<Self, SdkError>)
        ensures
            latest_wire_ok(response) ==> (r matches Ok(p) && p.view == view_from_proto(
                response.view,
            ).unwrap() && p.latest_mode == latest_mode_from_name(response.latest_mode@).unwrap()
                && p.rows@ == latest_bars_from_wire(response.rows@) && p.watermark_end_ms
                == response.watermark_end_ms && p.close_end_ms == response.close_end_ms
                && p.missing_pairs == response.missing_pairs),
            !latest_wire_ok(response) ==> r matches Err(SdkError::ContractDrift { .. }),
    {
        let view = match response.view {
            ProtoBarsView::Min => BarsView::Min,
            ProtoBarsView::Full => BarsView::Full,
            ProtoBarsView::Unspecified => {
                return Err(
                    SdkError::contract_drift(
                        String::from_str("latest bars protobuf response has unspecified view"),
                    ),
                );
            },
            ProtoBarsView::Unknown => {
                return Err(
                    SdkError::contract_drift(
                        String::from_str("latest bars protobuf response has invalid view"),
                    ),
                );
            },
        };
        let latest_mode = LatestMode::from_proto(response.latest_mode.as_str())?;
        let ghost orig = response.rows@;
        let mut rest = response.rows;
        let mut rows: Vec<Bar> = Vec::new();
        let n = rest.len();
        let mut k: usize = 0;
        while k < n
            invariant
                orig == response.rows@,
                n == orig.len(),
                k <= n,
                rest@ == orig.subrange(k as int, n as int),
                rows@.len() == k,
                forall|i: int| 0 <= i < k ==> (#[trigger] latest_bar_from_wire(orig[i])) is Some,
                forall|i: int| 0 <= i < k ==> rows@[i] == latest_bar_from_wire(orig[i]).unwrap(),
            decreases n - k,
        {
            let row = rest.remove(0);
            assert(row == orig[k as int]);
            let bar = match Bar::from_proto_latest(row) {
                Ok(b) => b,
                Err(e) => {
                    assert(latest_bar_from_wire(orig[k as int]) is None);
                    assert(!all_latest_rows_read(orig));
                    return Err(e);
                },
            };
            rows.push(bar);
            k = k + 1;
            assert(rest@ =~= orig.subrange(k as int, n as int));
        }
        assert(rows@ =~= latest_bars_from_wire(orig));
        let snapshot = LatestResponse {
            watermark_end_ms: response.watermark_end_ms,
            close_end_ms: response.close_end_ms,
            latest_mode,
            view,
            rows,
            missing_pairs: response.missing_pairs,
        };
        snapshot.validate_view()?;
        Ok(snapshot)
    }
}


/// The provenance read from a protobuf message keeps each of the message's
/// values under the same name; an empty venue list reads as absent and a
/// non-empty one is kept.
pub proof fn law_metadata_keeps_wire_fields(w: BarMetadataWire)
    ensures
        ({
            let m = metadata_from_wire(w);
            &&& m.source == w.source && m.process == w.process && m.ingested_at_ms == w.ingested_at_ms && m.ingested_at_utc == w.ingested_at_utc && m.target_ingested_at_ms == w.target_ingested_at_ms && m.target_ingested_at_utc == w.target_ingested_at_utc && m.built_at_ms == w.built_at_ms && m.built_at_utc == w.built_at_utc && m.committed_at_ms == w.committed_at_ms && m.committed_at_utc == w.committed_at_utc && m.harmonized_at_ms == w.harmonized_at_ms && m.harmonized_at_utc == w.harmonized_at_utc && m.recomputed_at_ms == w.recomputed_at_ms && m.recomputed_at_utc == w.recomputed_at_utc && m.recomputed_reason == w.recomputed_reason && m.covered_1m_count == w.covered_1m_count && m.expected_1m_count == w.expected_1m_count && m.coverage_ratio_bits == w.coverage_ratio_bits && m.inputs_source_counts_frontier == w.inputs_source_counts_frontier && m.inputs_source_counts_api == w.inputs_source_counts_api && m.inputs_source_counts_synthetic == w.inputs_source_counts_synthetic && m.inputs_source_counts_fix_data == w.inputs_source_counts_fix_data && m.frontier_5s_inputs_coverage_ratio_bits == w.frontier_5s_inputs_coverage_ratio_bits && m.frontier_5s_expected == w.frontier_5s_expected && m.frontier_5s_synth_n == w.frontier_5s_synth_n && m.frontier_5s_synth_ratio_bits == w.frontier_5s_synth_ratio_bits && m.frontier_5s_trade_n == w.frontier_5s_trade_n && m.frontier_5s_trade_ratio_bits == w.frontier_5s_trade_ratio_bits
            &&& (w.venues_expected@.len() == 0 ==> m.venues_expected is None)
            &&& (w.venues_expected@.len() > 0 ==> m.venues_expected == Some(w.venues_expected))
            &&& (w.venues_with_trades@.len() == 0 ==> m.venues_with_trades is None)
            &&& (w.venues_with_trades@.len() > 0 ==> m.venues_with_trades == Some(w.venues_with_trades))
        }),
{
}

/// A bar read from a protobuf row is that row: it reads exactly when the
/// timeframe is known and both UTC stamps are present, and then keeps the
/// row's pair, times and every price, volume and count under its own name
/// (high stays high, low stays low), with no age and with metadata exactly
/// when the row has it.
pub proof fn law_bar_keeps_wire_fields(w: BarRowWire)
    ensures
        bar_from_wire(w) is Some <==> (timeframe_from_name(w.tf@) is Some && w.s_utc is Some && w.e_utc is Some),
        bar_from_wire(w) matches Some(b) ==> {
            &&& b.pair == w.pair && b.open_ms == w.s_ms && b.close_ms == w.e_ms && b.o == w.o && b.h == w.h && b.l == w.l && b.c == w.c && b.v == w.v && b.quote_v == w.quote_v && b.taker_known_v == w.taker_known_v && b.taker_signed_v == w.taker_signed_v && b.taker_known_quote_v == w.taker_known_quote_v && b.taker_signed_quote_v == w.taker_signed_quote_v && b.taker_known_n == w.taker_known_n && b.taker_signed_n == w.taker_signed_n && b.vw == w.vw && b.n == w.n
            &&& Some(b.tf) == timeframe_from_name(w.tf@)
            &&& w.s_utc == Some(b.open_utc)
            &&& w.e_utc == Some(b.close_utc)
            &&& b.age_ms is None
            &&& (b.metadata is Some <==> w.metadata is Some)
        },
{
}

/// A `latest` bar read from a protobuf row is the row's bar with the row's
/// age: it keeps the bar's pair, times, prices and volumes.
pub proof fn law_latest_bar_keeps_wire_fields(w: BarsPresentRowWire)
    ensures
        latest_bar_from_wire(w) is Some <==> (w.bar matches Some(row) && bar_from_wire(row) is Some && w.age_ms is Some),
        latest_bar_from_wire(w) matches Some(b) ==> (w.bar matches Some(row) && b.pair == row.pair && b.open_ms == row.s_ms && b.close_ms == row.e_ms && b.o == row.o && b.h == row.h && b.l == row.l && b.c == row.c && b.v == row.v && b.quote_v == row.quote_v && b.taker_known_v == row.taker_known_v && b.taker_signed_v == row.taker_signed_v && b.taker_known_quote_v == row.taker_known_quote_v && b.taker_signed_quote_v == row.taker_signed_quote_v && b.taker_known_n == row.taker_known_n && b.taker_signed_n == row.taker_signed_n && b.vw == row.vw && b.n == row.n && b.age_ms == w.age_ms),
{
}

/// A `time_machine` bar row read from protobuf keeps the row's hit time
/// and offset, and its bar keeps the row's bar's values.
pub proof fn law_time_machine_bar_row_keeps_wire_fields(w: BarsTimeMachineRowWire)
    ensures
        tm_row_from_wire(w) is Some <==> (w.bar matches Some(row) && bar_from_wire(row) is Some),
        tm_row_from_wire(w) matches Some(t) ==> (w.bar matches Some(row) && t.hit_close_ms == w.hit_close_ms
            && t.offset == w.offset && t.bar.pair == row.pair && t.bar.open_ms == row.s_ms && t.bar.close_ms == row.e_ms && t.bar.o == row.o && t.bar.h == row.h && t.bar.l == row.l && t.bar.c == row.c && t.bar.v == row.v && t.bar.quote_v == row.quote_v && t.bar.taker_known_v == row.taker_known_v && t.bar.taker_signed_v == row.taker_signed_v && t.bar.taker_known_quote_v == row.taker_known_quote_v && t.bar.taker_signed_quote_v == row.taker_signed_quote_v && t.bar.taker_known_n == row.taker_known_n && t.bar.taker_signed_n == row.taker_signed_n && t.bar.vw == row.vw && t.bar.n == row.n),
{
}


/// Reading a timeframe's wire name gives the timeframe back, so names of
/// different timeframes differ; the same holds of `latest` modes.
pub proof fn law_wire_names_round_trip(t: Timeframe, m: LatestMode)
    ensures
        timeframe_from_name(timeframe_name(t)) == Some(t),
        latest_mode_from_name(latest_mode_name(m)) == Some(m),
{
    match t {
        Timeframe::M1 => {
            reveal_strlit("1m");
        },
        Timeframe::M5 => {
            reveal_strlit("5m");
            reveal_strlit("1m");
            assert("5m"@[0] != "1m"@[0]);
        },
        Timeframe::M15 => {
            reveal_strlit("15m");
            reveal_strlit("1m");
            assert("15m"@.len() != "1m"@.len());
            reveal_strlit("5m");
            assert("15m"@.len() != "5m"@.len());
        },
        Timeframe::M30 => {
            reveal_strlit("30m");
            reveal_strlit("1m");
            assert("30m"@.len() != "1m"@.len());
            reveal_strlit("5m");
            assert("30m"@.len() != "5m"@.len());
            reveal_strlit("15m");
            assert("30m"@[0] != "15m"@[0]);
        },
        Timeframe::H1 => {
            reveal_strlit("1h");
            reveal_strlit("1m");
            assert("1h"@[1] != "1m"@[1]);
            reveal_strlit("5m");
            assert("1h"@[0] != "5m"@[0]);
            reveal_strlit("15m");
            assert("1h"@.len() != "15m"@.len());
            reveal_strlit("30m");
            assert("1h"@.len() != "30m"@.len());
        },
        Timeframe::H4 => {
            reveal_strlit("4h");
            reveal_strlit("1m");
            assert("4h"@[0] != "1m"@[0]);
            reveal_strlit("5m");
            assert("4h"@[0] != "5m"@[0]);
            reveal_strlit("15m");
            assert("4h"@.len() != "15m"@.len());
            reveal_strlit("30m");
            assert("4h"@.len() != "30m"@.len());
            reveal_strlit("1h");
            assert("4h"@[0] != "1h"@[0]);
        },
        Timeframe::H6 => {
            reveal_strlit("6h");
            reveal_strlit("1m");
            assert("6h"@[0] != "1m"@[0]);
            reveal_strlit("5m");
            assert("6h"@[0] != "5m"@[0]);
            reveal_strlit("15m");
            assert("6h"@.len() != "15m"@.len());
            reveal_strlit("30m");
            assert("6h"@.len() != "30m"@.len());
            reveal_strlit("1h");
            assert("6h"@[0] != "1h"@[0]);
            reveal_strlit("4h");
            assert("6h"@[0] != "4h"@[0]);
        },
        Timeframe::H12 => {
            reveal_strlit("12h");
            reveal_strlit("1m");
            assert("12h"@.len() != "1m"@.len());
            reveal_strlit("5m");
            assert("12h"@.len() != "5m"@.len());
            reveal_strlit("15m");
            assert("12h"@[1] != "15m"@[1]);
            reveal_strlit("30m");
            assert("12h"@[0] != "30m"@[0]);
            reveal_strlit("1h");
            assert("12h"@.len() != "1h"@.len());
            reveal_strlit("4h");
            assert("12h"@.len() != "4h"@.len());
            reveal_strlit("6h");
            assert("12h"@.len() != "6h"@.len());
        },
        Timeframe::D1 => {
            reveal_strlit("1d");
            reveal_strlit("1m");
            assert("1d"@[1] != "1m"@[1]);
            reveal_strlit("5m");
            assert("1d"@[0] != "5m"@[0]);
            reveal_strlit("15m");
            assert("1d"@.len() != "15m"@.len());
            reveal_strlit("30m");
            assert("1d"@.len() != "30m"@.len());
            reveal_strlit("1h");
            assert("1d"@[1] != "1h"@[1]);
            reveal_strlit("4h");
            assert("1d"@[0] != "4h"@[0]);
            reveal_strlit("6h");
            assert("1d"@[0] != "6h"@[0]);
            reveal_strlit("12h");
            assert("1d"@.len() != "12h"@.len());
        },
    }
    match m {
        LatestMode::ExactWatermark => {
            reveal_strlit("exact_watermark");
        },
        LatestMode::LatestAvailableLeWatermark => {
            reveal_strlit("latest_available_le_watermark");
            reveal_strlit("exact_watermark");
            assert("latest_available_le_watermark"@.len() != "exact_watermark"@.len());
        },
    }
}

} // verus!
