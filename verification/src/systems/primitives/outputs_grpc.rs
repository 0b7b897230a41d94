//! The gRPC outputs reads: the method, the body sent, and how the reply is
//! read. Projected modes are not read back from protobuf.
use vstd::prelude::*;
use crate::sdk_core::error::SdkError;
use crate::systems::primitives::types::{
    PrimitiveOutputMode, LatestOutputsGrpcRequest, RangeOutputsGrpcRequest, SearchOutputsGrpcRequest,
    TimeMachineOutputsGrpcRequest, NormalizedLatestOutputsGrpcRequest, NormalizedRangeOutputsGrpcRequest,
    NormalizedSearchOutputsGrpcRequest, NormalizedTimeMachineOutputsGrpcRequest, output_mode_spec,
    opt_family_names, opt_group_names, mode_is_projected, diagnostics_enabled,
};

verus! {

pub const LATEST_OUTPUTS_PATH: &'static str = "/mathilde.feed.outputs.v1.OutputsServiceV1/LatestOutputs";

pub const RANGE_OUTPUTS_PATH: &'static str = "/mathilde.feed.outputs.v1.OutputsServiceV1/RangeOutputs";

pub const SEARCH_OUTPUTS_PATH: &'static str = "/mathilde.feed.outputs.v1.OutputsServiceV1/SearchOutputs";

pub const TIME_MACHINE_OUTPUTS_PATH: &'static str = "/mathilde.feed.outputs.v1.OutputsServiceV1/TimeMachineOutputs";

/// Ok unless the mode is projected.
pub fn ensure_grpc_mode_supported(mode: PrimitiveOutputMode, context: &str) -> (r: Result<(), SdkError>)
    ensures
        r is Ok <==> !mode_is_projected(mode),
        r is Err ==> r matches Err(SdkError::UnsupportedOrUnprovedUsage { .. }),
{
    if mode.is_projected() {
        return Err(
            SdkError::unsupported_or_unproved_usage(
                String::from_str(context).concat(
                    " projected gRPC decoding is not proved because protobuf leaves unselected computed fields unset",
                ),
            ),
        );
    }
    Ok(())
}

/// What a gRPC outputs read sends, and how its reply is read.
#[derive(Debug, Clone, PartialEq)]
pub struct OutputsGrpcPlan<B> {
    pub mode: PrimitiveOutputMode,
    pub body: B,
    pub diagnostics_enabled: bool,
}

/// What a gRPC `latest` read sends: refused for projected modes.
pub fn latest_outputs_grpc_request(request: &LatestOutputsGrpcRequest) -> (r: Result<
    OutputsGrpcPlan<NormalizedLatestOutputsGrpcRequest>,
    SdkError,
>)
    ensures
        r is Ok <==> (output_mode_spec(opt_family_names(request.family), opt_group_names(request.group), request.metadata) matches Some(m) && !mode_is_projected(m) && request.proto_ok()),
        r matches Ok(p) ==> request.proto_body_spec(p.body),
        output_mode_spec(opt_family_names(request.family), opt_group_names(request.group), request.metadata) is None
            ==> r matches Err(SdkError::RequestBuild { .. }),
        (output_mode_spec(opt_family_names(request.family), opt_group_names(request.group), request.metadata) matches Some(m)
            && mode_is_projected(m)) ==> r matches Err(SdkError::UnsupportedOrUnprovedUsage { .. }),
        r matches Ok(p) ==> Some(p.mode) == output_mode_spec(opt_family_names(request.family), opt_group_names(request.group), request.metadata)
            && !mode_is_projected(p.mode) && p.diagnostics_enabled == (request.diagnostics == Some(true)),
{
    let mode = request.output_mode()?;
    ensure_grpc_mode_supported(mode, "latest outputs")?;
    let body = request.to_proto()?;
    Ok(OutputsGrpcPlan { mode, body, diagnostics_enabled: diagnostics_enabled(request.diagnostics) })
}

/// What a gRPC `range` read sends: refused for projected modes.
pub fn range_outputs_grpc_request(request: &RangeOutputsGrpcRequest) -> (r: Result<
    OutputsGrpcPlan<NormalizedRangeOutputsGrpcRequest>,
    SdkError,
>)
    ensures
        r is Ok <==> (output_mode_spec(opt_family_names(request.family), opt_group_names(request.group), request.metadata) matches Some(m) && !mode_is_projected(m) && request.proto_ok()),
        r matches Ok(p) ==> request.proto_body_spec(p.body),
        output_mode_spec(opt_family_names(request.family), opt_group_names(request.group), request.metadata) is None
            ==> r matches Err(SdkError::RequestBuild { .. }),
        (output_mode_spec(opt_family_names(request.family), opt_group_names(request.group), request.metadata) matches Some(m)
            && mode_is_projected(m)) ==> r matches Err(SdkError::UnsupportedOrUnprovedUsage { .. }),
        r matches Ok(p) ==> Some(p.mode) == output_mode_spec(opt_family_names(request.family), opt_group_names(request.group), request.metadata)
            && !mode_is_projected(p.mode) && p.diagnostics_enabled == (request.diagnostics == Some(true)),
{
    let mode = request.output_mode()?;
    ensure_grpc_mode_supported(mode, "range outputs")?;
    let body = request.to_proto()?;
    Ok(OutputsGrpcPlan { mode, body, diagnostics_enabled: diagnostics_enabled(request.diagnostics) })
}

/// What a gRPC `search` read sends: refused for projected modes.
pub fn search_outputs_grpc_request(request: &SearchOutputsGrpcRequest) -> (r: Result<
    OutputsGrpcPlan<NormalizedSearchOutputsGrpcRequest>,
    SdkError,
>)
    ensures
        r is Ok <==> (output_mode_spec(opt_family_names(request.family), opt_group_names(request.group), request.metadata) matches Some(m) && !mode_is_projected(m) && request.proto_ok()),
        r matches Ok(p) ==> request.proto_body_spec(p.body),
        output_mode_spec(opt_family_names(request.family), opt_group_names(request.group), request.metadata) is None
            ==> r matches Err(SdkError::RequestBuild { .. }),
        (output_mode_spec(opt_family_names(request.family), opt_group_names(request.group), request.metadata) matches Some(m)
            && mode_is_projected(m)) ==> r matches Err(SdkError::UnsupportedOrUnprovedUsage { .. }),
        r matches Ok(p) ==> Some(p.mode) == output_mode_spec(opt_family_names(request.family), opt_group_names(request.group), request.metadata)
            && !mode_is_projected(p.mode) && p.diagnostics_enabled == (request.diagnostics == Some(true)),
{
    let mode = request.output_mode()?;
    ensure_grpc_mode_supported(mode, "search outputs")?;
    let body = request.to_proto()?;
    Ok(OutputsGrpcPlan { mode, body, diagnostics_enabled: diagnostics_enabled(request.diagnostics) })
}

/// What a gRPC `time_machine` read sends: refused for projected modes.
pub fn time_machine_outputs_grpc_request(request: &TimeMachineOutputsGrpcRequest) -> (r: Result<
    OutputsGrpcPlan<NormalizedTimeMachineOutputsGrpcRequest>,
    SdkError,
>)
    ensures
        r is Ok <==> (output_mode_spec(opt_family_names(request.family), opt_group_names(request.group), request.metadata) matches Some(m) && !mode_is_projected(m) && request.proto_ok()),
        r matches Ok(p) ==> request.proto_body_spec(p.body),
        output_mode_spec(opt_family_names(request.family), opt_group_names(request.group), request.metadata) is None
            ==> r matches Err(SdkError::RequestBuild { .. }),
        (output_mode_spec(opt_family_names(request.family), opt_group_names(request.group), request.metadata) matches Some(m)
            && mode_is_projected(m)) ==> r matches Err(SdkError::UnsupportedOrUnprovedUsage { .. }),
        r matches Ok(p) ==> Some(p.mode) == output_mode_spec(opt_family_names(request.family), opt_group_names(request.group), request.metadata)
            && !mode_is_projected(p.mode) && p.diagnostics_enabled == (request.diagnostics == Some(true)),
{
    let mode = request.output_mode()?;
    ensure_grpc_mode_supported(mode, "time machine outputs")?;
    let body = request.to_proto()?;
    Ok(OutputsGrpcPlan { mode, body, diagnostics_enabled: diagnostics_enabled(request.diagnostics) })
}

} // verus!
