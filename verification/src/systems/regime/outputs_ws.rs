//! Regime outputs WebSocket: the subscription, its wire form, and how
//! inbound frames are read against it.
use vstd::prelude::*;
use crate::sdk_core::error::SdkError;
use crate::sdk_core::pagination::str_eq;
use crate::sdk_core::text::trimmed_nonblank;
use crate::sdk_core::time::{TimeInput, opt_time_input_ms, opt_to_utc_ms};
use crate::systems::types::Timeframe;
use crate::systems::aggregator::types::{normalize_pair_values, has_pairs};
use crate::systems::aggregator::bars_ws::{timeframe_names, timeframe_strings};
use crate::systems::primitives::types::{
    ProcessorFamily, ProcessorGroup, ProtoOutputView, OutputView, opt_family_names, opt_group_names,
    normalized_selectors, opt_deep, mode_is_projected, mode_has_metadata, expected_view,
    output_view_from_proto, ensure_proto_output_mode_supported, expected_output_view,
    normalize_family_selectors, diagnostics_enabled, selector_family_names,
};
use crate::systems::regime::types::{
    RegimeOutputMode, LatestPresentRow, OutputsPresentRowProtoWire, regime_mode_spec,
    normalize_group_selector_names, present_rows_into_public, present_rows_from_proto,
    all_present_public, presents_public, all_presents_from_proto, presents_of_proto,
};

verus! {

/// Where the outputs stream is served.
pub const OUTPUTS_WS_PATH: &'static str = "/v1/ws/outputs";

/// Encoding of streamed rows.
#[derive(Debug, Clone, Copy, PartialEq, Eq, Structural)]
pub enum OutputsWsFormat {
    Json,
    Protobuf,
}

impl Default for OutputsWsFormat {
    fn default() -> (r: Self)
        ensures
            r == OutputsWsFormat::Json,
    {
        OutputsWsFormat::Json
    }
}

impl OutputsWsFormat {
    pub fn as_str(&self) -> (r: &'static str)
        ensures
            r@ == (match *self {
                OutputsWsFormat::Json => "json"@,
                OutputsWsFormat::Protobuf => "protobuf"@,
            }),
    {
        match self {
            OutputsWsFormat::Json => "json",
            OutputsWsFormat::Protobuf => "protobuf",
        }
    }
}

/// Whether frames replay history or are live.
#[derive(Debug, Clone, Copy, PartialEq, Eq, Structural)]
pub enum OutputsWsPhase {
    Replay,
    Live,
}

/// One immutable regime outputs subscription.
#[derive(Debug, Clone, PartialEq)]
pub struct OutputsWsSubscribeRequest {
    pub pairs: Vec<String>,
    pub tfs: Vec<Timeframe>,
    pub metadata: Option<bool>,
    pub diagnostics: Option<bool>,
    pub family: Option<Vec<ProcessorFamily>>,
    pub group: Option<Vec<ProcessorGroup>>,
    pub secondary: Option<bool>,
    pub from_close: Option<TimeInput>,
    pub last_n_bars: Option<i64>,
    pub format: Option<OutputsWsFormat>,
}

/// The subscribe message as sent.
#[derive(Debug, Clone, PartialEq, Eq)]
pub struct NormalizedOutputsWsSubscribeRequest {
    pub pairs: Vec<String>,
    pub tfs: Vec<String>,
    pub metadata: bool,
    pub diagnostics: bool,
    pub family: Option<Vec<String>>,
    pub group: Option<Vec<String>>,
    pub secondary: Option<bool>,
    pub from_close_ms: Option<i64>,
    pub last_n_bars: Option<i64>,
    pub format: OutputsWsFormat,
}

/// Whether every timeframe is `1h`.
pub open spec fn all_hourly(tfs: Seq<Timeframe>) -> bool {
    forall|i: int| 0 <= i < tfs.len() ==> #[trigger] tfs[i] == Timeframe::H1
}

/// The mode a subscription implies.
pub open spec fn subscribe_mode(r: OutputsWsSubscribeRequest) -> Option<RegimeOutputMode> {
    regime_mode_spec(opt_family_names(r.family), opt_group_names(r.group), r.secondary, r.metadata)
}

/// The format a subscription asks for; JSON when absent.
pub open spec fn subscribe_format(r: OutputsWsSubscribeRequest) -> OutputsWsFormat {
    match r.format {
        Some(f) => f,
        None => OutputsWsFormat::Json,
    }
}

/// Whether the subscription passes the checks made before its mode.
pub open spec fn shape_ok(r: OutputsWsSubscribeRequest) -> bool {
    &&& has_pairs(r.pairs.deep_view())
    &&& r.tfs@.len() > 0
    &&& all_hourly(r.tfs@)
    &&& !(r.from_close is Some && r.last_n_bars is Some)
    &&& !(r.last_n_bars matches Some(n) && n <= 0)
}

/// Whether a subscription is sent: its shape passes, it implies a mode, and
/// a projected mode does not ask for protobuf.
pub open spec fn subscribe_ok(r: OutputsWsSubscribeRequest) -> bool {
    &&& shape_ok(r)
    &&& subscribe_mode(r) matches Some(m)
    &&& !(mode_is_projected(m) && subscribe_format(r) == OutputsWsFormat::Protobuf)
    &&& opt_time_input_ms(r.from_close) is Some
}

impl OutputsWsSubscribeRequest {
    /// The shape of the rows this subscription asks for.
    pub fn output_mode(&self) -> (r: Result<RegimeOutputMode, SdkError>)
        ensures
            match subscribe_mode(*self) {
                Some(m) => r == Ok::<RegimeOutputMode, SdkError>(m),
                None => r matches Err(SdkError::RequestBuild { .. }),
            },
    {
        crate::systems::regime::types::infer_output_mode(
            self.family.as_ref(),
            self.group.as_ref(),
            self.secondary,
            self.metadata,
        )
    }

    /// The subscribe message. Refused, in this order: without pairs, without
    /// timeframes, with a timeframe other than `1h`, with both a start time
    /// and a bar count, with a count that is not positive, with the metadata
    /// family but no metadata, with protobuf for a projected mode, with a
    /// start time that does not read.
    pub fn normalize(&self) -> (r: Result<NormalizedOutputsWsSubscribeRequest, SdkError>)
        ensures
            !has_pairs(self.pairs.deep_view()) ==> (r matches Err(SdkError::RequestBuild { message })
                && message@ == "outputs ws subscribe requires at least one pair"@),
            has_pairs(self.pairs.deep_view()) && self.tfs@.len() == 0 ==> (r matches Err(
                SdkError::RequestBuild { message },
            ) && message@ == "outputs ws subscribe requires at least one timeframe"@),
            has_pairs(self.pairs.deep_view()) && self.tfs@.len() > 0 && !all_hourly(self.tfs@) ==> (r matches Err(
                SdkError::UnsupportedOrUnprovedUsage { message },
            ) && message@ == "outputs ws subscribe supports tf=1h only in regime v1"@),
            shape_ok(*self) && subscribe_mode(*self) is None ==> r matches Err(SdkError::RequestBuild { .. }),
            shape_ok(*self) && (subscribe_mode(*self) matches Some(m) && mode_is_projected(m))
                && subscribe_format(*self) == OutputsWsFormat::Protobuf ==> r matches Err(
                SdkError::UnsupportedOrUnprovedUsage { .. },
            ),
            r is Ok <==> subscribe_ok(*self),
            r matches Ok(n) ==> n.pairs.deep_view() == trimmed_nonblank(self.pairs.deep_view())
                && n.tfs.deep_view() == timeframe_names(self.tfs@) && n.metadata == mode_has_metadata(
                subscribe_mode(*self).unwrap(),
            ) && n.diagnostics == (self.diagnostics == Some(true)) && opt_deep(n.family)
                == normalized_selectors(opt_family_names(self.family)) && opt_deep(n.group)
                == normalized_selectors(opt_group_names(self.group)) && n.secondary == self.secondary
                && n.from_close_ms == opt_time_input_ms(self.from_close).unwrap() && n.last_n_bars
                == self.last_n_bars && n.format == subscribe_format(*self),
    {
        let pairs = normalize_pair_values(&self.pairs);
        if pairs.len() == 0 {
            assert(pairs.deep_view().len() == 0);
            return Err(SdkError::request_build(String::from_str("outputs ws subscribe requires at least one pair")));
        }
        assert(pairs.deep_view().len() > 0);
        if self.tfs.len() == 0 {
            return Err(
                SdkError::request_build(String::from_str("outputs ws subscribe requires at least one timeframe")),
            );
        }
        let mut i: usize = 0;
        while i < self.tfs.len()
            invariant
                has_pairs(self.pairs.deep_view()),
                self.tfs@.len() > 0,
                i <= self.tfs.len(),
                forall|j: int| 0 <= j < i ==> #[trigger] self.tfs@[j] == Timeframe::H1,
            decreases self.tfs.len() - i,
        {
            if self.tfs[i] != Timeframe::H1 {
                return Err(
                    SdkError::unsupported_or_unproved_usage(
                        String::from_str("outputs ws subscribe supports tf=1h only in regime v1"),
                    ),
                );
            }
            i = i + 1;
        }
        if self.from_close.is_some() && self.last_n_bars.is_some() {
            return Err(
                SdkError::request_build(
                    String::from_str("outputs ws subscribe accepts `from_close` or `last_n_bars`, not both"),
                ),
            );
        }
        if let Some(n) = self.last_n_bars {
            if n <= 0 {
                return Err(
                    SdkError::request_build(
                        String::from_str("outputs ws subscribe requires `last_n_bars` > 0 when provided"),
                    ),
                );
            }
        }
        let mode = self.output_mode()?;
        let format = match self.format {
            Some(f) => f,
            None => OutputsWsFormat::Json,
        };
        if mode.is_projected() && format == OutputsWsFormat::Protobuf {
            return Err(
                SdkError::unsupported_or_unproved_usage(
                    String::from_str(
                        "outputs ws projected protobuf decoding is not proved because unselected computed fields collapse to unset optional fields",
                    ),
                ),
            );
        }
        let from_close_ms = opt_to_utc_ms(&self.from_close)?;
        let family = match normalize_family_selectors(&self.family) {
            Some(f) => {
                let names = selector_family_names(&Some(f));
                Some(names)
            },
            None => None,
        };
        Ok(NormalizedOutputsWsSubscribeRequest {
            pairs,
            tfs: timeframe_strings(&self.tfs),
            metadata: mode.has_metadata(),
            diagnostics: diagnostics_enabled(self.diagnostics),
            family,
            group: normalize_group_selector_names(&self.group),
            secondary: self.secondary,
            from_close_ms,
            last_n_bars: self.last_n_bars,
            format,
        })
    }
}

/// A control frame: replay progress and live watermarks.
#[derive(Debug, Clone, PartialEq, Eq)]
pub struct OutputsWsMetaFrame {
    pub tf: Option<String>,
    pub close_ms: Option<i64>,
    pub watermark_end_ms: i64,
    pub phase: OutputsWsPhase,
    pub missing_pairs: Vec<String>,
    pub event: Option<String>,
}

impl OutputsWsMetaFrame {
    /// Whether this frame marks the end of the replay.
    pub fn is_replay_done(&self) -> (r: bool)
        ensures
            r == (self.phase == OutputsWsPhase::Replay && (self.event matches Some(e) && e@ == "replay_done"@)),
    {
        if self.phase != OutputsWsPhase::Replay {
            return false;
        }
        match &self.event {
            Some(e) => str_eq(e.as_str(), "replay_done"),
            None => false,
        }
    }
}

/// An error the service reports on the stream.
#[derive(Debug, Clone, PartialEq, Eq)]
pub struct OutputsWsErrorFrame {
    pub kind: String,
    pub error: String,
}

/// One inbound frame of the outputs stream.
#[derive(Debug, Clone, PartialEq)]
pub enum OutputsWsInboundFrame {
    Meta(OutputsWsMetaFrame),
    Error(OutputsWsErrorFrame),
    JsonRows(Vec<LatestPresentRow>),
    ProtobufRows(Vec<LatestPresentRow>),
}

/// What a text frame decoded to, each reading tried on the same text.
#[derive(Debug)]
pub struct OutputsTextFrameReadings {
    pub as_error: Option<OutputsWsErrorFrame>,
    pub as_meta: Option<OutputsWsMetaFrame>,
    pub as_rows: Option<Vec<LatestPresentRow>>,
}

/// Whether an error reading names both a kind and an error.
pub open spec fn is_error_reading(e: Option<OutputsWsErrorFrame>) -> bool {
    e matches Some(f) && f.kind@.len() > 0 && f.error@.len() > 0
}

/// The frame a text message is: an error frame when it reads as one with a
/// kind and an error, else a meta frame, else rows as handed out for the
/// subscription's mode.
pub fn decode_text_frame(readings: OutputsTextFrameReadings, request: &OutputsWsSubscribeRequest) -> (r: Result<
    OutputsWsInboundFrame,
    SdkError,
>)
    ensures
        is_error_reading(readings.as_error) ==> r == Ok::<OutputsWsInboundFrame, SdkError>(
            OutputsWsInboundFrame::Error(readings.as_error.unwrap()),
        ),
        !is_error_reading(readings.as_error) && readings.as_meta is Some ==> r == Ok::<
            OutputsWsInboundFrame,
            SdkError,
        >(OutputsWsInboundFrame::Meta(readings.as_meta.unwrap())),
        !is_error_reading(readings.as_error) && readings.as_meta is None ==> match (readings.as_rows, subscribe_mode(*request)) {
            (Some(rows), Some(m)) => (r is Ok <==> all_present_public(rows@, mode_has_metadata(m), request.diagnostics == Some(true)))
                && (r matches Ok(f) ==> f matches OutputsWsInboundFrame::JsonRows(v) && v@ == presents_public(
                rows@,
                mode_has_metadata(m),
                request.diagnostics == Some(true),
            )),
            _ => r is Err,
        },
{
    if let Some(e) = readings.as_error {
        if !e.kind.as_str().is_empty() && !e.error.as_str().is_empty() {
            return Ok(OutputsWsInboundFrame::Error(e));
        }
    }
    if let Some(m) = readings.as_meta {
        return Ok(OutputsWsInboundFrame::Meta(m));
    }
    let mode = request.output_mode()?;
    let rows = match readings.as_rows {
        Some(rows) => rows,
        None => {
            return Err(SdkError::contract_drift(String::from_str("outputs ws JSON rows decode failed")));
        },
    };
    let rows = present_rows_into_public(rows, mode.has_metadata(), diagnostics_enabled(request.diagnostics))?;
    Ok(OutputsWsInboundFrame::JsonRows(rows))
}

/// A protobuf rows payload of the outputs stream.
#[derive(Debug, Clone, PartialEq)]
pub struct OutputsRowsPayloadProtoWire {
    pub view: ProtoOutputView,
    pub rows: Vec<OutputsPresentRowProtoWire>,
}

/// The frame a binary message is: only non-projected modes are read, the
/// declared view must be the one the mode implies, and every row must read.
pub fn decode_binary_frame(payload: OutputsRowsPayloadProtoWire, request: &OutputsWsSubscribeRequest) -> (r: Result<
    OutputsWsInboundFrame,
    SdkError,
>)
    ensures
        match subscribe_mode(*request) {
            Some(m) => (r is Ok <==> (!mode_is_projected(m) && output_view_from_proto(payload.view) == Some(
                expected_view(m),
            ) && all_presents_from_proto(payload.rows@, m, request.diagnostics == Some(true)))) && (r matches Ok(f)
                ==> f matches OutputsWsInboundFrame::ProtobufRows(v) && v@ == presents_of_proto(
                payload.rows@,
                m,
                request.diagnostics == Some(true),
            )),
            None => r is Err,
        },
{
    let mode = request.output_mode()?;
    ensure_proto_output_mode_supported(mode, "outputs ws protobuf rows")?;
    let view = OutputView::from_proto(payload.view)?;
    let expected = expected_output_view(mode);
    if view != expected {
        return Err(
            SdkError::contract_drift(
                String::from_str("outputs ws protobuf payload view `").concat(view.as_str()).concat(
                    "` did not match request mode `",
                ).concat(expected.as_str()).concat("`"),
            ),
        );
    }
    let rows = present_rows_from_proto(payload.rows, mode, diagnostics_enabled(request.diagnostics))?;
    Ok(OutputsWsInboundFrame::ProtobufRows(rows))
}

} // verus!
