//! The HTTP outputs reads: what is sent for a request, and what a reply
//! gives back. Sending and decoding the body are the caller's.
use vstd::prelude::*;
use crate::sdk_core::error::SdkError;
use crate::sdk_core::text::trimmed_nonblank;
use crate::sdk_core::time::{opt_time_input_ms, time_input_ms};
use crate::systems::aggregator::bars::latest_mode_from_name;
use crate::systems::aggregator::types::{has_pairs, window_inputs_ok};
use crate::systems::types::{HttpBody, HttpFormat};
use crate::systems::primitives::types::{
    PrimitiveOutputMode, LatestOutputsRequest, RangeOutputsRequest, SearchOutputsRequest,
    TimeMachineOutputsRequest, NormalizedLatestOutputsRequest, NormalizedRangeOutputsRequest,
    NormalizedSearchOutputsRequest, NormalizedTimeMachineOutputsRequest, LatestOutputsResponse,
    OutputsLatestResponseWire, RangeOutputsResponse, OutputsRangeResponseWire, SearchOutputsResponse,
    OutputsSearchResponseWire, TimeMachineOutputsResponse, OutputsTimeMachineResponseWire,
    output_mode_spec, opt_family_names, opt_group_names, mode_is_projected, expected_view,
    output_view_from_proto, all_present_rows_read, present_rows_from_wire, present_rows_gated,
    all_outputs_read, outputs_from_wire, all_gated, opt_all_gated, opt_outputs_view,
    all_tm_output_rows_read, tm_output_rows_from_wire, tm_rows_gated, optional_text_ok,
    ensure_http_format_supported, diagnostics_enabled,
};
use crate::sdk_core::text::trim;

verus! {

/// What an HTTP outputs read sends, and how its reply is read.
#[derive(Debug, Clone, PartialEq)]
pub struct OutputsHttpPlan<B> {
    pub mode: PrimitiveOutputMode,
    pub body: B,
    pub diagnostics_enabled: bool,
    pub protobuf: bool,
}

/// Whether a projected request asks for a protobuf body.
pub open spec fn projected_protobuf(mode: PrimitiveOutputMode, format: Option<HttpFormat>) -> bool {
    mode_is_projected(mode) && format == Some(HttpFormat::Protobuf)
}

/// What a `latest` read sends: the mode, the normalized body, and how to
/// read the reply. A projected request cannot ask for protobuf.
pub fn latest_outputs_request(request: &LatestOutputsRequest) -> (r: Result<
    OutputsHttpPlan<NormalizedLatestOutputsRequest>,
    SdkError,
>)
    ensures
        r matches Ok(p) ==> p.mode == output_mode_spec(opt_family_names(request.family), opt_group_names(request.group), request.metadata).unwrap() && request.http_body_spec(p.body),
        r is Ok <==> (output_mode_spec(opt_family_names(request.family), opt_group_names(request.group), request.metadata) matches Some(m)
            && has_pairs(request.pairs.deep_view()) && !projected_protobuf(m, request.format)),
        r matches Ok(p) ==> p.mode == output_mode_spec(opt_family_names(request.family), opt_group_names(request.group), request.metadata).unwrap()
            && p.body.pairs.deep_view() == trimmed_nonblank(request.pairs.deep_view()) && p.body.tf == request.tf
            && p.body.format == request.format && p.diagnostics_enabled == (request.diagnostics == Some(true))
            && p.protobuf == (request.format == Some(HttpFormat::Protobuf)),
        output_mode_spec(opt_family_names(request.family), opt_group_names(request.group), request.metadata) is None
            ==> r matches Err(SdkError::RequestBuild { .. }),
        output_mode_spec(opt_family_names(request.family), opt_group_names(request.group), request.metadata) matches Some(m)
            && has_pairs(request.pairs.deep_view()) && projected_protobuf(m, request.format)
            ==> r matches Err(SdkError::UnsupportedOrUnprovedUsage { .. }),
{
    let mode = request.output_mode()?;
    let body = request.normalize_http()?;
    ensure_http_format_supported(mode, body.format, "latest outputs")?;
    let protobuf = body.format == Some(HttpFormat::Protobuf);
    Ok(OutputsHttpPlan { mode, body, diagnostics_enabled: diagnostics_enabled(request.diagnostics), protobuf })
}

/// What a `latest` reply gives back: a JSON snapshot must declare the view
/// the mode implies; a protobuf one is read row by row. Diagnostics are
/// dropped unless they were asked for.
pub fn latest_outputs_response<B>(
    plan: &OutputsHttpPlan<B>,
    body: HttpBody<LatestOutputsResponse, OutputsLatestResponseWire>,
) -> (r: Result<LatestOutputsResponse, SdkError>)
    ensures
        match body {
            HttpBody::Json(raw) => (r is Ok <==> raw.view == expected_view(plan.mode)) && (r matches Ok(p)
                ==> p.rows@ == present_rows_gated(raw.rows@, plan.diagnostics_enabled) && p.view == raw.view
                && p.close_end_ms == raw.close_end_ms && p.watermark_end_ms == raw.watermark_end_ms
                && p.latest_mode == raw.latest_mode && p.missing_pairs == raw.missing_pairs),
            HttpBody::Protobuf(w) => (r is Ok <==> (!mode_is_projected(plan.mode) && output_view_from_proto(w.view)
                == Some(expected_view(plan.mode)) && latest_mode_from_name(w.latest_mode@) is Some
                && all_present_rows_read(w.rows@, plan.mode, plan.diagnostics_enabled))) && (r matches Ok(p)
                ==> p.rows@ == present_rows_from_wire(w.rows@, plan.mode, plan.diagnostics_enabled)
                && p.close_end_ms == w.close_end_ms && p.view == expected_view(plan.mode) && p.latest_mode
                == latest_mode_from_name(w.latest_mode@).unwrap() && p.watermark_end_ms == w.watermark_end_ms
                && p.missing_pairs == w.missing_pairs),
        },
        r is Err ==> r matches Err(SdkError::ContractDrift { .. }) || r matches Err(
            SdkError::UnsupportedOrUnprovedUsage { .. },
        ),
{
    match body {
        HttpBody::Json(raw) => LatestOutputsResponse::from_http(raw, plan.mode, plan.diagnostics_enabled),
        HttpBody::Protobuf(w) => LatestOutputsResponse::from_proto(w, plan.mode, plan.diagnostics_enabled),
    }
}

/// What a `range` read sends.
pub fn range_outputs_request(request: &RangeOutputsRequest) -> (r: Result<
    OutputsHttpPlan<NormalizedRangeOutputsRequest>,
    SdkError,
>)
    ensures
        r matches Ok(p) ==> p.mode == output_mode_spec(opt_family_names(request.family), opt_group_names(request.group), request.metadata).unwrap() && request.http_body_spec(p.body),
        r is Ok <==> (output_mode_spec(opt_family_names(request.family), opt_group_names(request.group), request.metadata) matches Some(m)
            && has_pairs(request.pairs.deep_view()) && opt_time_input_ms(request.close_start) is Some
            && opt_time_input_ms(request.close_end) is Some && !projected_protobuf(m, request.format)),
        r matches Ok(p) ==> p.mode == output_mode_spec(opt_family_names(request.family), opt_group_names(request.group), request.metadata).unwrap()
            && p.body.pairs.deep_view() == trimmed_nonblank(request.pairs.deep_view())
            && p.body.close_start_ms == opt_time_input_ms(request.close_start).unwrap()
            && p.body.close_end_ms == opt_time_input_ms(request.close_end).unwrap()
            && p.body.format == request.format && p.diagnostics_enabled == (request.diagnostics == Some(true))
            && p.protobuf == (request.format == Some(HttpFormat::Protobuf)),
        output_mode_spec(opt_family_names(request.family), opt_group_names(request.group), request.metadata) is None
            ==> r matches Err(SdkError::RequestBuild { .. }),
{
    let mode = request.output_mode()?;
    let body = request.normalize_http()?;
    ensure_http_format_supported(mode, body.format, "range outputs")?;
    let protobuf = body.format == Some(HttpFormat::Protobuf);
    Ok(OutputsHttpPlan { mode, body, diagnostics_enabled: diagnostics_enabled(request.diagnostics), protobuf })
}

/// What a `range` reply gives back.
pub fn range_outputs_response<B>(
    plan: &OutputsHttpPlan<B>,
    body: HttpBody<RangeOutputsResponse, OutputsRangeResponseWire>,
) -> (r: Result<RangeOutputsResponse, SdkError>)
    ensures
        match body {
            HttpBody::Json(raw) => r matches Ok(p) && p.rows@ == all_gated(raw.rows@, plan.diagnostics_enabled)
                && p.close_end_ms == raw.close_end_ms && p.next_cursor == raw.next_cursor,
            HttpBody::Protobuf(w) => (r is Ok <==> (!mode_is_projected(plan.mode) && all_outputs_read(
                w.rows@,
                plan.mode,
                plan.diagnostics_enabled,
            ))) && (r matches Ok(p) ==> p.rows@ == outputs_from_wire(w.rows@, plan.mode, plan.diagnostics_enabled)
                && p.close_end_ms == w.close_end_ms && p.next_cursor == w.next_cursor),
        },
{
    match body {
        HttpBody::Json(raw) => Ok(RangeOutputsResponse::from_http(raw, plan.diagnostics_enabled)),
        HttpBody::Protobuf(w) => RangeOutputsResponse::from_proto(w, plan.mode, plan.diagnostics_enabled),
    }
}

/// What a `search` read sends.
pub fn search_outputs_request(request: &SearchOutputsRequest) -> (r: Result<
    OutputsHttpPlan<NormalizedSearchOutputsRequest>,
    SdkError,
>)
    ensures
        r matches Ok(p) ==> p.mode == output_mode_spec(opt_family_names(request.family), opt_group_names(request.group), request.metadata).unwrap() && request.http_body_spec(p.body),
        r is Ok <==> (output_mode_spec(opt_family_names(request.family), opt_group_names(request.group), request.metadata) matches Some(m)
            && trim(request.predicate@).len() > 0 && window_inputs_ok(request.close_start, request.close_end)
            && !projected_protobuf(m, request.format)),
        r matches Ok(p) ==> p.mode == output_mode_spec(opt_family_names(request.family), opt_group_names(request.group), request.metadata).unwrap()
            && p.body.predicate@ == trim(request.predicate@)
            && p.body.close_start_ms == time_input_ms(request.close_start).unwrap()
            && p.body.close_end_ms == opt_time_input_ms(request.close_end).unwrap()
            && p.body.format == request.format && p.diagnostics_enabled == (request.diagnostics == Some(true))
            && p.protobuf == (request.format == Some(HttpFormat::Protobuf)),
        output_mode_spec(opt_family_names(request.family), opt_group_names(request.group), request.metadata) is None
            ==> r matches Err(SdkError::RequestBuild { .. }),
{
    let mode = request.output_mode()?;
    let body = request.normalize_http()?;
    ensure_http_format_supported(mode, body.format, "search outputs")?;
    let protobuf = body.format == Some(HttpFormat::Protobuf);
    Ok(OutputsHttpPlan { mode, body, diagnostics_enabled: diagnostics_enabled(request.diagnostics), protobuf })
}

/// What a `search` reply gives back; evaluated rows are read from protobuf
/// only when the request named an evaluated pair.
pub fn search_outputs_response<B>(
    plan: &OutputsHttpPlan<B>,
    evaluate_pair_given: bool,
    body: HttpBody<SearchOutputsResponse, OutputsSearchResponseWire>,
) -> (r: Result<SearchOutputsResponse, SdkError>)
    ensures
        match body {
            HttpBody::Json(raw) => r matches Ok(p) && opt_outputs_view(p.evaluated_rows) == opt_all_gated(
                raw.evaluated_rows,
                plan.diagnostics_enabled,
            ) && p.hits == raw.hits && p.next_cursor == raw.next_cursor && p.done == raw.done
                && p.returned_hits == raw.returned_hits && p.effective_hits_limit == raw.effective_hits_limit
                && p.truncated == raw.truncated && p.predicate_pairs == raw.predicate_pairs
                && p.predicate_normalized == raw.predicate_normalized,
            HttpBody::Protobuf(w) => (r is Ok <==> (!mode_is_projected(plan.mode) && (if evaluate_pair_given {
                all_outputs_read(w.evaluated_rows@, plan.mode, plan.diagnostics_enabled)
            } else {
                w.evaluated_rows@.len() == 0
            }))) && (r matches Ok(p) ==> (if evaluate_pair_given {
                opt_outputs_view(p.evaluated_rows) == Some(
                    outputs_from_wire(w.evaluated_rows@, plan.mode, plan.diagnostics_enabled),
                )
            } else {
                p.evaluated_rows is None
            }) && p.hits == w.hits && p.next_cursor == w.next_cursor && p.done == w.done && p.returned_hits
                == w.returned_hits && p.effective_hits_limit == w.effective_hits_limit && p.truncated == w.truncated
                && p.predicate_pairs == w.predicate_pairs && p.predicate_normalized == w.predicate_normalized),
        },
        r is Err ==> r matches Err(SdkError::ContractDrift { .. }) || r matches Err(
            SdkError::UnsupportedOrUnprovedUsage { .. },
        ),
{
    match body {
        HttpBody::Json(raw) => Ok(SearchOutputsResponse::from_http(raw, plan.diagnostics_enabled)),
        HttpBody::Protobuf(w) => SearchOutputsResponse::from_proto(
            w,
            plan.mode,
            plan.diagnostics_enabled,
            evaluate_pair_given,
        ),
    }
}

/// What a `time_machine` read sends.
pub fn time_machine_outputs_request(request: &TimeMachineOutputsRequest) -> (r: Result<
    OutputsHttpPlan<NormalizedTimeMachineOutputsRequest>,
    SdkError,
>)
    ensures
        r matches Ok(p) ==> p.mode == output_mode_spec(opt_family_names(request.family), opt_group_names(request.group), request.metadata).unwrap() && request.http_body_spec(p.body),
        r is Ok <==> (output_mode_spec(opt_family_names(request.family), opt_group_names(request.group), request.metadata) matches Some(m)
            && window_inputs_ok(request.close_start, request.close_end) && optional_text_ok(request.predicate)
            && !projected_protobuf(m, request.format)),
        r matches Ok(p) ==> p.mode == output_mode_spec(opt_family_names(request.family), opt_group_names(request.group), request.metadata).unwrap()
            && p.body.close_start_ms == time_input_ms(request.close_start).unwrap()
            && p.body.close_end_ms == opt_time_input_ms(request.close_end).unwrap()
            && p.body.format == request.format && p.diagnostics_enabled == (request.diagnostics == Some(true))
            && p.protobuf == (request.format == Some(HttpFormat::Protobuf)),
        output_mode_spec(opt_family_names(request.family), opt_group_names(request.group), request.metadata) is None
            ==> r matches Err(SdkError::RequestBuild { .. }),
{
    let mode = request.output_mode()?;
    let body = request.normalize_http()?;
    ensure_http_format_supported(mode, body.format, "time machine outputs")?;
    let protobuf = body.format == Some(HttpFormat::Protobuf);
    Ok(OutputsHttpPlan { mode, body, diagnostics_enabled: diagnostics_enabled(request.diagnostics), protobuf })
}

/// What a `time_machine` reply gives back.
pub fn time_machine_outputs_response<B>(
    plan: &OutputsHttpPlan<B>,
    body: HttpBody<TimeMachineOutputsResponse, OutputsTimeMachineResponseWire>,
) -> (r: Result<TimeMachineOutputsResponse, SdkError>)
    ensures
        match body {
            HttpBody::Json(raw) => r matches Ok(p) && p.rows@ == tm_rows_gated(raw.rows@, plan.diagnostics_enabled)
                && p.next_cursor == raw.next_cursor && p.done == raw.done && p.returned_hits == raw.returned_hits
                && p.effective_hits_limit == raw.effective_hits_limit && p.truncated == raw.truncated
                && p.predicate_pairs == raw.predicate_pairs && p.predicate_normalized == raw.predicate_normalized,
            HttpBody::Protobuf(w) => (r is Ok <==> (!mode_is_projected(plan.mode) && all_tm_output_rows_read(
                w.rows@,
                plan.mode,
                plan.diagnostics_enabled,
            ))) && (r matches Ok(p) ==> p.rows@ == tm_output_rows_from_wire(w.rows@, plan.mode, plan.diagnostics_enabled)
                && p.next_cursor == w.next_cursor && p.done == w.done && p.returned_hits == w.returned_hits
                && p.effective_hits_limit == w.effective_hits_limit && p.truncated == w.truncated
                && p.predicate_pairs == w.predicate_pairs && p.predicate_normalized == w.predicate_normalized),
        },
        r is Err ==> r matches Err(SdkError::ContractDrift { .. }) || r matches Err(
            SdkError::UnsupportedOrUnprovedUsage { .. },
        ),
{
    match body {
        HttpBody::Json(raw) => Ok(TimeMachineOutputsResponse::from_http(raw, plan.diagnostics_enabled)),
        HttpBody::Protobuf(w) => TimeMachineOutputsResponse::from_proto(w, plan.mode, plan.diagnostics_enabled),
    }
}

} // verus!
