//! The HTTP regime reads: what is sent for a request, and what a reply
//! gives back. Sending and decoding the body are the caller's.
use vstd::prelude::*;
use crate::sdk_core::error::SdkError;
use crate::sdk_core::time::{opt_time_input_ms, time_input_ms};
use crate::sdk_core::text::{trim, trimmed_nonblank};
use crate::systems::aggregator::types::{has_pairs, window_inputs_ok};
use crate::systems::types::{HttpBody, HttpFormat, Timeframe};
use crate::systems::primitives::types::{
    mode_is_projected, mode_has_metadata, opt_family_names, opt_group_names, optional_text_ok,
    diagnostics_enabled,
};
use crate::systems::primitives::outputs_http::{OutputsHttpPlan, projected_protobuf};
use crate::systems::regime::types::{
    RegimeOutputMode, LatestRequest, RangeRequest, SearchRequest, TimeMachineRequest,
    NormalizedLatestOutputsRequest, NormalizedRangeOutputsRequest, NormalizedSearchOutputsRequest,
    NormalizedTimeMachineOutputsRequest, LatestResponse, OutputsLatestResponseProtoWire, RangeResponse,
    OutputsRangeResponseProtoWire, SearchResponse, OutputsSearchResponseProtoWire, TimeMachineResponse,
    OutputsTimeMachineResponseProtoWire, regime_mode_spec, rows_public, all_rows_public, all_present_public,
    presents_public, all_presents_from_proto, presents_of_proto, all_rows_from_proto, rows_of_proto,
    all_tm_public, tms_public, all_tms_from_proto, tms_of_proto,
};
use crate::systems::primitives::types::{expected_view, output_view_from_proto};
use crate::systems::aggregator::bars::latest_mode_from_name;

verus! {

/// Ok unless a projected request asks for an HTTP protobuf body.
pub fn ensure_http_format_supported(mode: RegimeOutputMode, format: Option<HttpFormat>, context: &str) -> (r:
    Result<(), SdkError>)
    ensures
        r is Ok <==> !projected_protobuf(mode, format),
        r is Err ==> r matches Err(SdkError::UnsupportedOrUnprovedUsage { .. }),
{
    if mode.is_projected() && format == Some(HttpFormat::Protobuf) {
        return Err(
            SdkError::unsupported_or_unproved_usage(
                String::from_str(context).concat(" projected HTTP protobuf requests are rejected by regime v1"),
            ),
        );
    }
    Ok(())
}

/// What a regime `latest` read sends. Only `tf=1h` is served, and a
/// projected request cannot ask for protobuf.
pub fn latest_outputs_request(request: &LatestRequest) -> (r: Result<
    OutputsHttpPlan<NormalizedLatestOutputsRequest>,
    SdkError,
>)
    ensures
        r matches Ok(p) ==> p.mode == regime_mode_spec(opt_family_names(request.family), opt_group_names(request.group), request.secondary, request.metadata).unwrap() && request.http_body_spec(p.body),
        r is Ok <==> (request.tf == Timeframe::H1 && (regime_mode_spec(opt_family_names(request.family), opt_group_names(request.group), request.secondary, request.metadata) matches Some(m)
            && has_pairs(request.pairs.deep_view()) && !projected_protobuf(m, request.format))),
        r matches Ok(p) ==> p.mode == regime_mode_spec(opt_family_names(request.family), opt_group_names(request.group), request.secondary, request.metadata).unwrap()
            && p.body.pairs.deep_view() == trimmed_nonblank(request.pairs.deep_view()) && p.body.format == request.format
            && p.diagnostics_enabled == (request.diagnostics == Some(true)) && p.protobuf == (request.format == Some(HttpFormat::Protobuf)),
        request.tf != Timeframe::H1 && regime_mode_spec(opt_family_names(request.family), opt_group_names(request.group), request.secondary, request.metadata) is Some
            ==> r matches Err(SdkError::UnsupportedOrUnprovedUsage { .. }),
{
    let mode = request.output_mode()?;
    let body = request.normalize_http()?;
    ensure_http_format_supported(mode, body.format, "latest outputs")?;
    let protobuf = body.format == Some(HttpFormat::Protobuf);
    Ok(OutputsHttpPlan { mode, body, diagnostics_enabled: diagnostics_enabled(request.diagnostics), protobuf })
}

/// What a regime `latest` reply gives back.
pub fn latest_outputs_response<B>(
    plan: &OutputsHttpPlan<B>,
    body: HttpBody<LatestResponse, OutputsLatestResponseProtoWire>,
) -> (r: Result<LatestResponse, SdkError>)
    ensures
        match body {
            HttpBody::Json(raw) => ((raw.view == expected_view(plan.mode) && all_present_public(
                raw.rows@,
                mode_has_metadata(plan.mode),
                plan.diagnostics_enabled,
            )) <==> r is Ok) && (r matches Ok(p) ==> p.rows@ == presents_public(
                raw.rows@,
                mode_has_metadata(plan.mode),
                plan.diagnostics_enabled,
            ) && p.watermark_end_ms == raw.watermark_end_ms && p.close_end_ms == raw.close_end_ms
                && p.latest_mode == raw.latest_mode && p.view == raw.view && p.missing_pairs == raw.missing_pairs),
            HttpBody::Protobuf(w) => (mode_is_projected(plan.mode) ==> r matches Err(
                SdkError::UnsupportedOrUnprovedUsage { .. },
            )) && (!mode_is_projected(plan.mode) ==> ((output_view_from_proto(w.view) == Some(
                expected_view(plan.mode),
            ) && latest_mode_from_name(w.latest_mode@) is Some && all_presents_from_proto(
                w.rows@,
                plan.mode,
                plan.diagnostics_enabled,
            )) <==> r is Ok)) && (r matches Ok(p) ==> p.rows@ == presents_of_proto(
                w.rows@,
                plan.mode,
                plan.diagnostics_enabled,
            ) && p.view == expected_view(plan.mode) && p.close_end_ms == w.close_end_ms
                && p.watermark_end_ms == w.watermark_end_ms && Some(p.latest_mode) == latest_mode_from_name(
                w.latest_mode@,
            ) && p.missing_pairs == w.missing_pairs),
        },
        r is Err ==> r matches Err(SdkError::ContractDrift { .. }) || r matches Err(
            SdkError::UnsupportedOrUnprovedUsage { .. },
        ),
{
    match body {
        HttpBody::Json(raw) => LatestResponse::from_http(raw, plan.mode, plan.diagnostics_enabled),
        HttpBody::Protobuf(w) => LatestResponse::from_proto(w, plan.mode, plan.diagnostics_enabled),
    }
}

/// What a regime `range` read sends.
pub fn range_outputs_request(request: &RangeRequest) -> (r: Result<
    OutputsHttpPlan<NormalizedRangeOutputsRequest>,
    SdkError,
>)
    ensures
        r matches Ok(p) ==> p.mode == regime_mode_spec(opt_family_names(request.family), opt_group_names(request.group), request.secondary, request.metadata).unwrap() && request.http_body_spec(p.body),
        r is Ok <==> (request.tf == Timeframe::H1 && (regime_mode_spec(opt_family_names(request.family), opt_group_names(request.group), request.secondary, request.metadata) matches Some(m)
            && has_pairs(request.pairs.deep_view()) && opt_time_input_ms(request.close_start) is Some
            && opt_time_input_ms(request.close_end) is Some && !projected_protobuf(m, request.format))),
        r matches Ok(p) ==> p.mode == regime_mode_spec(opt_family_names(request.family), opt_group_names(request.group), request.secondary, request.metadata).unwrap()
            && p.body.close_start_ms == opt_time_input_ms(request.close_start).unwrap()
            && p.body.close_end_ms == opt_time_input_ms(request.close_end).unwrap()
            && p.diagnostics_enabled == (request.diagnostics == Some(true)) && p.protobuf == (request.format == Some(HttpFormat::Protobuf)),
        request.tf != Timeframe::H1 && regime_mode_spec(opt_family_names(request.family), opt_group_names(request.group), request.secondary, request.metadata) is Some
            ==> r matches Err(SdkError::UnsupportedOrUnprovedUsage { .. }),
{
    let mode = request.output_mode()?;
    let body = request.normalize_http()?;
    ensure_http_format_supported(mode, body.format, "range outputs")?;
    let protobuf = body.format == Some(HttpFormat::Protobuf);
    Ok(OutputsHttpPlan { mode, body, diagnostics_enabled: diagnostics_enabled(request.diagnostics), protobuf })
}

/// What a regime `range` reply gives back: JSON rows carry metadata exactly
/// when the mode does.
pub fn range_outputs_response<B>(
    plan: &OutputsHttpPlan<B>,
    body: HttpBody<RangeResponse, OutputsRangeResponseProtoWire>,
) -> (r: Result<RangeResponse, SdkError>)
    ensures
        match body {
            HttpBody::Json(raw) => (r is Ok <==> all_rows_public(raw.rows@, mode_has_metadata(plan.mode), plan.diagnostics_enabled))
                && (r matches Ok(p) ==> p.rows@ == rows_public(raw.rows@, mode_has_metadata(plan.mode), plan.diagnostics_enabled)
                && p.close_end_ms == raw.close_end_ms && p.next_cursor == raw.next_cursor),
            HttpBody::Protobuf(w) => (mode_is_projected(plan.mode) ==> r matches Err(
                SdkError::UnsupportedOrUnprovedUsage { .. },
            )) && (!mode_is_projected(plan.mode) ==> (all_rows_from_proto(
                w.rows@,
                plan.mode,
                plan.diagnostics_enabled,
            ) <==> r is Ok)) && (r matches Ok(p) ==> p.rows@ == rows_of_proto(
                w.rows@,
                plan.mode,
                plan.diagnostics_enabled,
            ) && p.close_end_ms == w.close_end_ms && p.next_cursor == w.next_cursor),
        },
        r is Err ==> r matches Err(SdkError::ContractDrift { .. }) || r matches Err(
            SdkError::UnsupportedOrUnprovedUsage { .. },
        ),
{
    match body {
        HttpBody::Json(raw) => RangeResponse::from_http(raw, plan.mode, plan.diagnostics_enabled),
        HttpBody::Protobuf(w) => RangeResponse::from_proto(w, plan.mode, plan.diagnostics_enabled),
    }
}

/// What a regime `search` read sends.
pub fn search_outputs_request(request: &SearchRequest) -> (r: Result<
    OutputsHttpPlan<NormalizedSearchOutputsRequest>,
    SdkError,
>)
    ensures
        r matches Ok(p) ==> p.mode == regime_mode_spec(opt_family_names(request.family), opt_group_names(request.group), request.secondary, request.metadata).unwrap() && request.http_body_spec(p.body),
        r is Ok <==> (request.tf == Timeframe::H1 && (regime_mode_spec(opt_family_names(request.family), opt_group_names(request.group), request.secondary, request.metadata) matches Some(m)
            && window_inputs_ok(request.close_start, request.close_end) && trim(request.predicate@).len() > 0
            && !projected_protobuf(m, request.format))),
        r matches Ok(p) ==> p.body.predicate@ == trim(request.predicate@)
            && p.body.close_start_ms == time_input_ms(request.close_start).unwrap()
            && p.diagnostics_enabled == (request.diagnostics == Some(true)) && p.protobuf == (request.format == Some(HttpFormat::Protobuf)),
        request.tf != Timeframe::H1 && regime_mode_spec(opt_family_names(request.family), opt_group_names(request.group), request.secondary, request.metadata) is Some
            ==> r matches Err(SdkError::UnsupportedOrUnprovedUsage { .. }),
{
    let mode = request.output_mode()?;
    let body = request.normalize_http()?;
    ensure_http_format_supported(mode, body.format, "search outputs")?;
    let protobuf = body.format == Some(HttpFormat::Protobuf);
    Ok(OutputsHttpPlan { mode, body, diagnostics_enabled: diagnostics_enabled(request.diagnostics), protobuf })
}

/// What a regime `search` reply gives back.
pub fn search_outputs_response<B>(
    plan: &OutputsHttpPlan<B>,
    evaluate_pair_given: bool,
    body: HttpBody<SearchResponse, OutputsSearchResponseProtoWire>,
) -> (r: Result<SearchResponse, SdkError>)
    ensures
        match body {
            HttpBody::Json(raw) => ((match raw.evaluated_rows {
                Some(v) => all_rows_public(v@, mode_has_metadata(plan.mode), plan.diagnostics_enabled),
                None => true,
            }) <==> r is Ok) && (r matches Ok(p) ==> (match raw.evaluated_rows {
                Some(v) => p.evaluated_rows matches Some(x) && x@ == rows_public(
                    v@,
                    mode_has_metadata(plan.mode),
                    plan.diagnostics_enabled,
                ),
                None => p.evaluated_rows is None,
            }) && p.hits == raw.hits && p.next_cursor == raw.next_cursor && p.done == raw.done
                && p.returned_hits == raw.returned_hits && p.effective_hits_limit == raw.effective_hits_limit
                && p.truncated == raw.truncated && p.predicate_pairs == raw.predicate_pairs
                && p.predicate_normalized == raw.predicate_normalized),
            HttpBody::Protobuf(w) => (mode_is_projected(plan.mode) ==> r matches Err(
                SdkError::UnsupportedOrUnprovedUsage { .. },
            )) && (!mode_is_projected(plan.mode) ==> ((if evaluate_pair_given {
                all_rows_from_proto(w.evaluated_rows@, plan.mode, plan.diagnostics_enabled)
            } else {
                w.evaluated_rows@.len() == 0
            }) <==> r is Ok)) && (r matches Ok(p) ==> (if evaluate_pair_given {
                p.evaluated_rows matches Some(x) && x@ == rows_of_proto(
                    w.evaluated_rows@,
                    plan.mode,
                    plan.diagnostics_enabled,
                )
            } else {
                p.evaluated_rows is None
            }) && p.hits == w.hits && p.next_cursor == w.next_cursor && p.done == w.done
                && p.returned_hits == w.returned_hits && p.effective_hits_limit == w.effective_hits_limit
                && p.truncated == w.truncated && p.predicate_pairs == w.predicate_pairs
                && p.predicate_normalized == w.predicate_normalized),
        },
        r is Err ==> r matches Err(SdkError::ContractDrift { .. }) || r matches Err(
            SdkError::UnsupportedOrUnprovedUsage { .. },
        ),
{
    match body {
        HttpBody::Json(raw) => SearchResponse::from_http(raw, plan.mode, plan.diagnostics_enabled),
        HttpBody::Protobuf(w) => SearchResponse::from_proto(w, plan.mode, plan.diagnostics_enabled, evaluate_pair_given),
    }
}

/// What a regime `time_machine` read sends.
pub fn time_machine_outputs_request(request: &TimeMachineRequest) -> (r: Result<
    OutputsHttpPlan<NormalizedTimeMachineOutputsRequest>,
    SdkError,
>)
    ensures
        r matches Ok(p) ==> p.mode == regime_mode_spec(opt_family_names(request.family), opt_group_names(request.group), request.secondary, request.metadata).unwrap() && request.http_body_spec(p.body),
        r is Ok <==> (request.tf == Timeframe::H1 && (regime_mode_spec(opt_family_names(request.family), opt_group_names(request.group), request.secondary, request.metadata) matches Some(m)
            && window_inputs_ok(request.close_start, request.close_end) && optional_text_ok(request.predicate)
            && !projected_protobuf(m, request.format))),
        r matches Ok(p) ==> p.body.close_start_ms == time_input_ms(request.close_start).unwrap()
            && p.diagnostics_enabled == (request.diagnostics == Some(true)) && p.protobuf == (request.format == Some(HttpFormat::Protobuf)),
        request.tf != Timeframe::H1 && regime_mode_spec(opt_family_names(request.family), opt_group_names(request.group), request.secondary, request.metadata) is Some
            ==> r matches Err(SdkError::UnsupportedOrUnprovedUsage { .. }),
{
    let mode = request.output_mode()?;
    let body = request.normalize_http()?;
    ensure_http_format_supported(mode, body.format, "time machine outputs")?;
    let protobuf = body.format == Some(HttpFormat::Protobuf);
    Ok(OutputsHttpPlan { mode, body, diagnostics_enabled: diagnostics_enabled(request.diagnostics), protobuf })
}

/// What a regime `time_machine` reply gives back.
pub fn time_machine_outputs_response<B>(
    plan: &OutputsHttpPlan<B>,
    body: HttpBody<TimeMachineResponse, OutputsTimeMachineResponseProtoWire>,
) -> (r: Result<TimeMachineResponse, SdkError>)
    ensures
        match body {
            HttpBody::Json(raw) => (all_tm_public(raw.rows@, mode_has_metadata(plan.mode), plan.diagnostics_enabled)
                <==> r is Ok) && (r matches Ok(p) ==> p.rows@ == tms_public(
                raw.rows@,
                mode_has_metadata(plan.mode),
                plan.diagnostics_enabled,
            ) && p.next_cursor == raw.next_cursor && p.done == raw.done && p.returned_hits == raw.returned_hits
                && p.effective_hits_limit == raw.effective_hits_limit && p.truncated == raw.truncated
                && p.predicate_pairs == raw.predicate_pairs && p.predicate_normalized == raw.predicate_normalized),
            HttpBody::Protobuf(w) => (mode_is_projected(plan.mode) ==> r matches Err(
                SdkError::UnsupportedOrUnprovedUsage { .. },
            )) && (!mode_is_projected(plan.mode) ==> (all_tms_from_proto(
                w.rows@,
                plan.mode,
                plan.diagnostics_enabled,
            ) <==> r is Ok)) && (r matches Ok(p) ==> p.rows@ == tms_of_proto(
                w.rows@,
                plan.mode,
                plan.diagnostics_enabled,
            ) && p.next_cursor == w.next_cursor && p.done == w.done && p.returned_hits == w.returned_hits
                && p.effective_hits_limit == w.effective_hits_limit && p.truncated == w.truncated
                && p.predicate_pairs == w.predicate_pairs && p.predicate_normalized == w.predicate_normalized),
        },
        r is Err ==> r matches Err(SdkError::ContractDrift { .. }) || r matches Err(
            SdkError::UnsupportedOrUnprovedUsage { .. },
        ),
{
    match body {
        HttpBody::Json(raw) => TimeMachineResponse::from_http(raw, plan.mode, plan.diagnostics_enabled),
        HttpBody::Protobuf(w) => TimeMachineResponse::from_proto(w, plan.mode, plan.diagnostics_enabled),
    }
}

} // verus!
