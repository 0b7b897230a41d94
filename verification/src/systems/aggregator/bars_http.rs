//! What an HTTP bars reply gives back, checked against the request. Sending
//! the request and decoding the body are the caller's.
use vstd::prelude::*;
use crate::sdk_core::error::SdkError;
use crate::systems::types::HttpBody;
use crate::systems::aggregator::bars::{
    LatestResponse, BarsLatestResponseWire, RangeResponse, BarsRangeResponseWire, SearchResponse,
    BarsSearchResponseWire, TimeMachineResponse, BarsTimeMachineResponseWire, latest_rows_ok,
    latest_wire_ok, latest_bars_from_wire, all_metadata_shapes_ok, all_bars_read, bars_from_wire,
    opt_metadata_shapes_ok, all_tm_rows_read, tm_rows_from_wire, tm_metadata_shapes_ok, view_from_proto,
    latest_mode_from_name,
};

verus! {

/// A `latest` reply: every row must have the shape its view asks for.
pub fn latest_bars_response(body: HttpBody<LatestResponse, BarsLatestResponseWire>) -> (r: Result<
    LatestResponse,
    SdkError,
>)
    ensures
        match body {
            HttpBody::Json(raw) => (r is Ok <==> latest_rows_ok(raw.rows@, raw.view)) && (r is Ok ==> r
                == Ok::<LatestResponse, SdkError>(raw)),
            HttpBody::Protobuf(w) => (r is Ok <==> latest_wire_ok(w)) && (r matches Ok(p) ==> p.rows@
                == latest_bars_from_wire(w.rows@) && p.view == view_from_proto(w.view).unwrap() && p.latest_mode
                == latest_mode_from_name(w.latest_mode@).unwrap() && p.watermark_end_ms == w.watermark_end_ms
                && p.close_end_ms == w.close_end_ms && p.missing_pairs == w.missing_pairs),
        },
        r is Err ==> r matches Err(SdkError::ContractDrift { .. }),
{
    match body {
        HttpBody::Json(raw) => {
            raw.validate_view()?;
            Ok(raw)
        },
        HttpBody::Protobuf(w) => LatestResponse::from_proto(w),
    }
}

/// A `range` reply: metadata present on every row exactly when asked for.
pub fn range_bars_response(metadata: Option<bool>, body: HttpBody<RangeResponse, BarsRangeResponseWire>) -> (r:
    Result<RangeResponse, SdkError>)
    ensures
        match body {
            HttpBody::Json(raw) => (r is Ok <==> all_metadata_shapes_ok(raw.rows@, metadata == Some(true)))
                && (r is Ok ==> r == Ok::<RangeResponse, SdkError>(raw)),
            HttpBody::Protobuf(w) => (r is Ok <==> (all_bars_read(w.rows@) && all_metadata_shapes_ok(
                bars_from_wire(w.rows@),
                metadata == Some(true),
            ))) && (r matches Ok(p) ==> p.rows@ == bars_from_wire(w.rows@) && p.close_end_ms
                == w.close_end_ms && p.next_cursor == w.next_cursor),
        },
        r is Err ==> r matches Err(SdkError::ContractDrift { .. }),
{
    let required = metadata.unwrap_or(false);
    match body {
        HttpBody::Json(raw) => {
            raw.validate_metadata(required)?;
            Ok(raw)
        },
        HttpBody::Protobuf(w) => RangeResponse::from_proto(w, required),
    }
}

/// A `search` reply: metadata present on every evaluated row exactly when
/// asked for.
pub fn search_bars_response(metadata: Option<bool>, body: HttpBody<SearchResponse, BarsSearchResponseWire>) -> (r:
    Result<SearchResponse, SdkError>)
    ensures
        match body {
            HttpBody::Json(raw) => (r is Ok <==> opt_metadata_shapes_ok(raw.evaluated_rows, metadata == Some(true)))
                && (r is Ok ==> r == Ok::<SearchResponse, SdkError>(raw)),
            HttpBody::Protobuf(w) => (r is Ok <==> (all_bars_read(w.evaluated_rows@) && all_metadata_shapes_ok(
                bars_from_wire(w.evaluated_rows@),
                metadata == Some(true),
            ))) && (r matches Ok(p) ==> (if w.evaluated_rows@.len() == 0 {
                p.evaluated_rows is None
            } else {
                p.evaluated_rows matches Some(v) && v@ == bars_from_wire(w.evaluated_rows@)
            }) && p.hits == w.hits && p.next_cursor == w.next_cursor && p.done == w.done && p.returned_hits
                == w.returned_hits && p.effective_hits_limit == w.effective_hits_limit && p.truncated == w.truncated
                && p.predicate_pairs == w.predicate_pairs && p.predicate_normalized == w.predicate_normalized),
        },
        r is Err ==> r matches Err(SdkError::ContractDrift { .. }),
{
    let required = metadata.unwrap_or(false);
    match body {
        HttpBody::Json(raw) => {
            raw.validate_metadata(required)?;
            Ok(raw)
        },
        HttpBody::Protobuf(w) => SearchResponse::from_proto(w, required),
    }
}

/// A `time_machine` reply: metadata present on every bar exactly when asked
/// for.
pub fn time_machine_bars_response(
    metadata: Option<bool>,
    body: HttpBody<TimeMachineResponse, BarsTimeMachineResponseWire>,
) -> (r: Result<TimeMachineResponse, SdkError>)
    ensures
        match body {
            HttpBody::Json(raw) => (r is Ok <==> tm_metadata_shapes_ok(raw.rows@, metadata == Some(true)))
                && (r is Ok ==> r == Ok::<TimeMachineResponse, SdkError>(raw)),
            HttpBody::Protobuf(w) => (r is Ok <==> (all_tm_rows_read(w.rows@) && tm_metadata_shapes_ok(
                tm_rows_from_wire(w.rows@),
                metadata == Some(true),
            ))) && (r matches Ok(p) ==> p.rows@ == tm_rows_from_wire(w.rows@) && p.next_cursor
                == w.next_cursor && p.done == w.done && p.returned_hits == w.returned_hits
                && p.effective_hits_limit == w.effective_hits_limit && p.truncated == w.truncated
                && p.predicate_pairs == w.predicate_pairs && p.predicate_normalized == w.predicate_normalized),
        },
        r is Err ==> r matches Err(SdkError::ContractDrift { .. }),
{
    let required = metadata.unwrap_or(false);
    match body {
        HttpBody::Json(raw) => {
            raw.validate_metadata(required)?;
            Ok(raw)
        },
        HttpBody::Protobuf(w) => TimeMachineResponse::from_proto(w, required),
    }
}

} // verus!
