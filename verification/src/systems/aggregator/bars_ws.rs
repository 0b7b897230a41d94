//! Bars WebSocket: the subscription, its wire form, and how inbound frames
//! are read against it.
use vstd::prelude::*;
use crate::sdk_core::error::SdkError;
use crate::sdk_core::pagination::str_eq;
use crate::sdk_core::text::trimmed_nonblank;
use crate::sdk_core::time::{TimeInput, opt_time_input_ms, opt_to_utc_ms, time_input_message};
use crate::systems::types::{Timeframe, timeframe_name};
use crate::systems::aggregator::types::{normalize_pair_values, has_pairs};
use crate::systems::aggregator::bars::{
    Bar, BarsPresentRowWire, ProtoBarsView, all_metadata_shapes_ok, validate_bars_metadata,
    latest_bar_from_wire,
};

verus! {

/// Where the bars stream is served.
pub const BARS_WS_PATH: &'static str = "/v1/ws/bars";

/// Encoding of streamed rows.
#[derive(Debug, Clone, Copy, PartialEq, Eq, Structural)]
pub enum BarsWsFormat {
    Json,
    Protobuf,
}

impl Default for BarsWsFormat {
    fn default() -> (r: Self)
        ensures
            r == BarsWsFormat::Json,
    {
        BarsWsFormat::Json
    }
}

impl BarsWsFormat {
    pub fn as_str(&self) -> (r: &'static str)
        ensures
            r@ == (match *self {
                BarsWsFormat::Json => "json"@,
                BarsWsFormat::Protobuf => "protobuf"@,
            }),
    {
        match self {
            BarsWsFormat::Json => "json",
            BarsWsFormat::Protobuf => "protobuf",
        }
    }
}

/// Whether frames replay history or are live.
#[derive(Debug, Clone, Copy, PartialEq, Eq, Structural)]
pub enum BarsWsPhase {
    Replay,
    Live,
}

/// One immutable bars subscription.
#[derive(Debug, Clone, PartialEq)]
pub struct BarsWsSubscribeRequest {
    pub pairs: Vec<String>,
    pub tfs: Vec<Timeframe>,
    pub metadata: Option<bool>,
    pub from_close: Option<TimeInput>,
    pub last_n_bars: Option<i64>,
    pub format: Option<BarsWsFormat>,
}

/// The subscribe message as sent.
#[derive(Debug, Clone, PartialEq, Eq)]
pub struct NormalizedBarsWsSubscribeRequest {
    pub pairs: Vec<String>,
    pub tfs: Vec<String>,
    pub metadata: bool,
    pub from_close_ms: Option<i64>,
    pub last_n_bars: Option<i64>,
    pub format: BarsWsFormat,
}

/// The wire names of the timeframes.
pub open spec fn timeframe_names(tfs: Seq<Timeframe>) -> Seq<Seq<char>> {
    Seq::new(tfs.len(), |i: int| timeframe_name(tfs[i]))
}

/// Why a subscription is refused, first reason first; `None` when only its
/// start time remains to be read.
pub open spec fn subscribe_problem(r: BarsWsSubscribeRequest) -> Option<Seq<char>> {
    if !has_pairs(r.pairs.deep_view()) {
        Some("bars ws subscribe requires at least one pair"@)
    } else if r.tfs@.len() == 0 {
        Some("bars ws subscribe requires at least one timeframe"@)
    } else if r.from_close is Some && r.last_n_bars is Some {
        Some("bars ws subscribe accepts `from_close` or `last_n_bars`, not both"@)
    } else if r.last_n_bars matches Some(n) && n <= 0 {
        Some("bars ws subscribe requires `last_n_bars` > 0 when provided"@)
    } else {
        None
    }
}

/// The timeframes by their wire names.
pub fn timeframe_strings(tfs: &Vec<Timeframe>) -> (r: Vec<String>)
    ensures
        r.deep_view() == timeframe_names(tfs@),
{
    let mut out: Vec<String> = Vec::new();
    let mut i: usize = 0;
    while i < tfs.len()
        invariant
            i <= tfs.len(),
            out@.len() == i,
            forall|j: int| 0 <= j < i ==> out@[j]@ == #[trigger] timeframe_names(tfs@)[j],
        decreases tfs.len() - i,
    {
        out.push(String::from_str(tfs[i].as_str()));
        i = i + 1;
    }
    assert(out.deep_view() =~= timeframe_names(tfs@));
    out
}

impl BarsWsSubscribeRequest {
    /// The subscribe message: pairs trimmed with blanks dropped, timeframes
    /// by name, metadata off and JSON unless asked for, the start time in
    /// UTC milliseconds. Refused without pairs or timeframes, with both a
    /// start time and a bar count, or with a count that is not positive.
    pub fn normalize(&self) -> (r: Result<NormalizedBarsWsSubscribeRequest, SdkError>)
        ensures
            subscribe_problem(*self) matches Some(m) ==> (r matches Err(SdkError::RequestBuild { message })
                && message@ == m),
            subscribe_problem(*self) is None && opt_time_input_ms(self.from_close) is None ==> (r matches Err(
                SdkError::InvalidTimeInput { message },
            ) && message@ == time_input_message(self.from_close.unwrap())),
            subscribe_problem(*self) is None && opt_time_input_ms(self.from_close) is Some ==> (r matches Ok(n)
                && n.pairs.deep_view() == trimmed_nonblank(self.pairs.deep_view()) && n.tfs.deep_view()
                == timeframe_names(self.tfs@) && n.metadata == (self.metadata == Some(true)) && n.from_close_ms
                == opt_time_input_ms(self.from_close).unwrap() && n.last_n_bars == self.last_n_bars
                && n.format == (match self.format {
                Some(f) => f,
                None => BarsWsFormat::Json,
            })),
    {
        let pairs = normalize_pair_values(&self.pairs);
        if pairs.len() == 0 {
            assert(pairs.deep_view().len() == 0);
            return Err(SdkError::request_build(String::from_str("bars ws subscribe requires at least one pair")));
        }
        assert(pairs.deep_view().len() > 0);
        if self.tfs.len() == 0 {
            return Err(
                SdkError::request_build(String::from_str("bars ws subscribe requires at least one timeframe")),
            );
        }
        if self.from_close.is_some() && self.last_n_bars.is_some() {
            return Err(
                SdkError::request_build(
                    String::from_str("bars ws subscribe accepts `from_close` or `last_n_bars`, not both"),
                ),
            );
        }
        if let Some(n) = self.last_n_bars {
            if n <= 0 {
                return Err(
                    SdkError::request_build(
                        String::from_str("bars ws subscribe requires `last_n_bars` > 0 when provided"),
                    ),
                );
            }
        }
        let from_close_ms = opt_to_utc_ms(&self.from_close)?;
        let format = match self.format {
            Some(f) => f,
            None => BarsWsFormat::Json,
        };
        Ok(NormalizedBarsWsSubscribeRequest {
            pairs,
            tfs: timeframe_strings(&self.tfs),
            metadata: self.metadata.unwrap_or(false),
            from_close_ms,
            last_n_bars: self.last_n_bars,
            format,
        })
    }
}

/// A control frame: replay progress and live watermarks.
#[derive(Debug, Clone, PartialEq, Eq)]
pub struct BarsWsMetaFrame {
    pub tf: Option<String>,
    pub close_ms: Option<i64>,
    pub watermark_end_ms: i64,
    pub phase: BarsWsPhase,
    pub missing_pairs: Vec<String>,
    pub event: Option<String>,
}

impl BarsWsMetaFrame {
    /// Whether this frame marks the end of the replay.
    pub fn is_replay_done(&self) -> (r: bool)
        ensures
            r == (self.phase == BarsWsPhase::Replay && (self.event matches Some(e) && e@ == "replay_done"@)),
    {
        if self.phase != BarsWsPhase::Replay {
            return false;
        }
        match &self.event {
            Some(e) => str_eq(e.as_str(), "replay_done"),
            None => false,
        }
    }
}

/// An error the service reports on the stream.
#[derive(Debug, Clone, PartialEq, Eq)]
pub struct BarsWsErrorFrame {
    pub kind: String,
    pub error: String,
}

/// One inbound frame of the bars stream.
#[derive(Debug, Clone, PartialEq)]
pub enum BarsWsInboundFrame {
    Meta(BarsWsMetaFrame),
    Error(BarsWsErrorFrame),
    JsonRows(Vec<Bar>),
    ProtobufRows(Vec<Bar>),
}

/// What a text frame decoded to, each reading tried on the same text.
#[derive(Debug)]
pub struct BarsTextFrameReadings {
    pub as_error: Option<BarsWsErrorFrame>,
    pub as_meta: Option<BarsWsMetaFrame>,
    pub as_rows: Option<Vec<Bar>>,
}

/// Whether an error reading names both a kind and an error.
pub open spec fn is_error_reading(e: Option<BarsWsErrorFrame>) -> bool {
    e matches Some(f) && f.kind@.len() > 0 && f.error@.len() > 0
}

/// The frame a text message is: an error frame when it reads as one with a
/// kind and an error, else a meta frame when it reads as one, else rows,
/// which must carry metadata exactly when the subscription asked for it.
pub fn decode_text_frame(readings: BarsTextFrameReadings, request: &BarsWsSubscribeRequest) -> (r: Result<
    BarsWsInboundFrame,
    SdkError,
>)
    ensures
        is_error_reading(readings.as_error) ==> r == Ok::<BarsWsInboundFrame, SdkError>(
            BarsWsInboundFrame::Error(readings.as_error.unwrap()),
        ),
        !is_error_reading(readings.as_error) && readings.as_meta is Some ==> r == Ok::<
            BarsWsInboundFrame,
            SdkError,
        >(BarsWsInboundFrame::Meta(readings.as_meta.unwrap())),
        !is_error_reading(readings.as_error) && readings.as_meta is None ==> match readings.as_rows {
            Some(rows) => (r is Ok <==> all_metadata_shapes_ok(rows@, request.metadata == Some(true))) && (
            r is Ok ==> r == Ok::<BarsWsInboundFrame, SdkError>(BarsWsInboundFrame::JsonRows(rows))),
            None => r matches Err(SdkError::ContractDrift { .. }),
        },
{
    if let Some(e) = readings.as_error {
        if !e.kind.as_str().is_empty() && !e.error.as_str().is_empty() {
            return Ok(BarsWsInboundFrame::Error(e));
        }
    }
    if let Some(m) = readings.as_meta {
        return Ok(BarsWsInboundFrame::Meta(m));
    }
    let rows = match readings.as_rows {
        Some(rows) => rows,
        None => {
            return Err(SdkError::contract_drift(String::from_str("bars ws JSON rows decode failed")));
        },
    };
    validate_bars_metadata(&rows, request.metadata.unwrap_or(false), "bars ws JSON row")?;
    Ok(BarsWsInboundFrame::JsonRows(rows))
}

/// A protobuf rows payload of the bars stream.
#[derive(Debug, Clone, PartialEq)]
pub struct BarsRowsPayloadWire {
    pub view: ProtoBarsView,
    pub rows: Vec<BarsPresentRowWire>,
}

/// Whether every row of a binary payload stands for a bar with its age.
pub open spec fn latest_rows_read(rows: Seq<BarsPresentRowWire>) -> bool {
    forall|i: int| 0 <= i < rows.len() ==> #[trigger] latest_bar_from_wire(rows[i]) is Some
}

/// The bars of a binary payload's rows, in order.
pub open spec fn latest_bars_of(rows: Seq<BarsPresentRowWire>) -> Seq<Bar> {
    Seq::new(rows.len(), |i: int| latest_bar_from_wire(rows[i]).unwrap())
}

/// Whether a binary payload is accepted for a request: its view is `Min`
/// or `Full`, `Full` exactly when metadata was asked for, every row reads,
/// and every bar carries metadata as asked.
pub open spec fn binary_frame_ok(payload: BarsRowsPayloadWire, metadata_required: bool) -> bool {
    &&& (payload.view == ProtoBarsView::Min || payload.view == ProtoBarsView::Full)
    &&& (payload.view == ProtoBarsView::Full) == metadata_required
    &&& latest_rows_read(payload.rows@)
    &&& all_metadata_shapes_ok(latest_bars_of(payload.rows@), metadata_required)
}

/// The frame a binary message is: the declared view must match the
/// metadata request, and every row read and carry metadata as asked.
pub fn decode_binary_frame(payload: BarsRowsPayloadWire, request: &BarsWsSubscribeRequest) -> (r: Result<
    BarsWsInboundFrame,
    SdkError,
>)
    ensures
        r is Ok <==> binary_frame_ok(payload, request.metadata == Some(true)),
        r matches Ok(f) ==> (f matches BarsWsInboundFrame::ProtobufRows(rows) && rows@ == latest_bars_of(
            payload.rows@,
        )),
        (payload.view == ProtoBarsView::Unspecified || payload.view == ProtoBarsView::Unknown) ==> r matches Err(
            SdkError::ContractDrift { .. },
        ),
        (payload.view == ProtoBarsView::Full) != (request.metadata == Some(true)) ==> r is Err,
        r matches Ok(f) ==> f matches BarsWsInboundFrame::ProtobufRows(rows) && rows@.len() == payload.rows@.len()
            && (forall|i: int| 0 <= i < rows@.len() ==> latest_bar_from_wire(payload.rows@[i]) == Some(rows@[i]))
            && all_metadata_shapes_ok(rows@, request.metadata == Some(true)),
        r is Err ==> r matches Err(SdkError::ContractDrift { .. }),
{
    let metadata_required = request.metadata.unwrap_or(false);
    let full = match payload.view {
        ProtoBarsView::Min => false,
        ProtoBarsView::Full => true,
        ProtoBarsView::Unspecified => {
            return Err(
                SdkError::contract_drift(String::from_str("bars ws protobuf payload view is unspecified")),
            );
        },
        ProtoBarsView::Unknown => {
            return Err(
                SdkError::contract_drift(String::from_str("bars ws protobuf payload has unknown view")),
            );
        },
    };
    if metadata_required != full {
        return Err(
            SdkError::contract_drift(
                String::from_str("bars ws protobuf payload view does not match metadata request"),
            ),
        );
    }
    let ghost orig = payload.rows@;
    let mut rest = payload.rows;
    let mut rows: Vec<Bar> = Vec::new();
    let n = rest.len();
    let mut k: usize = 0;
    while k < n
        invariant
            n == orig.len(),
            k <= n,
            rest@ == orig.subrange(k as int, n as int),
            rows@.len() == k,
            forall|i: int| 0 <= i < k ==> latest_bar_from_wire(orig[i]) == Some(rows@[i]),
            forall|i: int| 0 <= i < k ==> #[trigger] latest_bar_from_wire(orig[i]) is Some,
            orig == payload.rows@,
        decreases n - k,
    {
        let row = rest.remove(0);
        assert(row == orig[k as int]);
        let bar = match Bar::from_proto_latest(row) {
            Ok(b) => b,
            Err(e) => {
                assert(!latest_rows_read(orig));
                return Err(e);
            },
        };
        rows.push(bar);
        k = k + 1;
        assert(rest@ =~= orig.subrange(k as int, n as int));
    }
    assert(latest_rows_read(orig));
    assert(rows@ =~= latest_bars_of(orig));
    validate_bars_metadata(&rows, metadata_required, "bars ws protobuf row")?;
    Ok(BarsWsInboundFrame::ProtobufRows(rows))
}


/// A binary payload is accepted only with the view the metadata request
/// asks for (`Full` exactly when metadata was asked for), only when every
/// row reads, and then every bar carries metadata exactly as asked.
pub proof fn law_binary_frame_view_matches_metadata(payload: BarsRowsPayloadWire, metadata_required: bool)
    ensures
        binary_frame_ok(payload, metadata_required) ==> {
            &&& (metadata_required ==> payload.view == ProtoBarsView::Full)
            &&& (!metadata_required ==> payload.view == ProtoBarsView::Min)
            &&& forall|i: int| 0 <= i < payload.rows@.len() ==> ((#[trigger] latest_bar_from_wire(payload.rows@[i]))
                matches Some(b) && (b.metadata is Some <==> metadata_required))
        },
{
    if binary_frame_ok(payload, metadata_required) {
        assert forall|i: int| 0 <= i < payload.rows@.len() implies ((#[trigger] latest_bar_from_wire(payload.rows@[i]))
            matches Some(b) && (b.metadata is Some <==> metadata_required)) by {
            assert(latest_bars_of(payload.rows@)[i] == latest_bar_from_wire(payload.rows@[i]).unwrap());
            assert(crate::systems::aggregator::bars::metadata_shape_ok(latest_bars_of(payload.rows@)[i], metadata_required));
        }
    }
}

} // verus!
