//! The regime client: its transports, and the calls that start a
//! traversal.
use vstd::prelude::*;
use crate::sdk_core::auth::BearerToken;
use crate::sdk_core::config::{
    RegimeConfig, OutputsConfig, GrpcTransportConfig, HttpTransportConfig, WsTransportConfig,
    required_matches,
};
use crate::sdk_core::error::SdkError;
use crate::systems::regime::outputs_pagination::{
    RangeCall, RangeGrpcCall, SearchCall, SearchGrpcCall, TimeMachineCall, TimeMachineGrpcCall,
};
use crate::systems::regime::types::{
    RangeGrpcRequest, RangeRequest, SearchGrpcRequest, SearchRequest,
    TimeMachineGrpcRequest, TimeMachineRequest,
};

verus! {

/// The regime (market regime outputs) client: HTTP always, gRPC and
/// WebSocket when configured, and the bearer token sent with every request.
#[derive(Debug, Clone)]
pub struct Regime {
    pub http: HttpTransportConfig,
    pub grpc: Option<GrpcTransportConfig>,
    pub ws: Option<WsTransportConfig>,
    pub bearer_token: Option<BearerToken>,
}

impl Regime {
    /// A client from `config`.
    pub fn new(config: RegimeConfig) -> (r: Result<Self, SdkError>)
        ensures
            r matches Ok(p) && p.http == config.http && p.grpc == config.grpc && p.ws == config.ws
                && p.bearer_token == config.bearer_token,
    {
        Ok(Regime { http: config.http, grpc: config.grpc, ws: config.ws, bearer_token: config.bearer_token })
    }

    /// A client of the public regime hosts.
    pub fn client(bearer_token: Option<BearerToken>) -> (r: Result<Self, SdkError>)
        ensures
            crate::sdk_core::config::public_hosts_outcome(
                r,
                crate::sdk_core::config::MathildePublicHosts::REGIME_HTTP@,
                crate::sdk_core::config::MathildePublicHosts::REGIME_GRPC@,
            ),
            r is Ok <==> crate::sdk_core::config::url_parses(crate::sdk_core::config::MathildePublicHosts::REGIME_HTTP@) && crate::sdk_core::config::url_parses(crate::sdk_core::config::MathildePublicHosts::REGIME_GRPC@),
            r matches Ok(p) ==> p.http.base_url@ == crate::sdk_core::config::url_serialization(crate::sdk_core::config::MathildePublicHosts::REGIME_HTTP@) && (p.grpc matches Some(g)
                && g.base_url@ == crate::sdk_core::config::url_serialization(crate::sdk_core::config::MathildePublicHosts::REGIME_GRPC@)) && (p.ws matches Some(w) && w.base_url@
                == crate::sdk_core::config::wss_of(crate::sdk_core::config::url_serialization(crate::sdk_core::config::MathildePublicHosts::REGIME_HTTP@))),
            r matches Ok(p) ==> p.grpc is Some && p.ws is Some && p.bearer_token == bearer_token,
    {
        Self::new(OutputsConfig::regime_public_default(bearer_token)?)
    }

    /// The gRPC transport; refused when it is not configured.
    pub fn grpc_transport(&self) -> (r: Result<&GrpcTransportConfig, SdkError>)
        ensures
            required_matches(r, self.grpc, "grpc"@),
    {
        match &self.grpc {
            Some(g) => Ok(g),
            None => Err(SdkError::missing_transport_config("grpc")),
        }
    }

    /// The WebSocket transport; refused when it is not configured.
    pub fn ws_transport(&self) -> (r: Result<&WsTransportConfig, SdkError>)
        ensures
            required_matches(r, self.ws, "ws"@),
    {
        match &self.ws {
            Some(w) => Ok(w),
            None => Err(SdkError::missing_transport_config("ws")),
        }
    }

    pub fn range_call(&self, request: RangeRequest) -> (r: RangeCall<'_>)
        ensures
            r.spec_request() == request,
            r.spec_client() == self,
    {
        RangeCall::new(self, request)
    }

    pub fn range_grpc_call(&self, request: RangeGrpcRequest) -> (r: RangeGrpcCall<'_>)
        ensures
            r.spec_request() == request,
            r.spec_client() == self,
    {
        RangeGrpcCall::new(self, request)
    }

    pub fn search_call(&self, request: SearchRequest) -> (r: SearchCall<'_>)
        ensures
            r.spec_request() == request,
            r.spec_client() == self,
    {
        SearchCall::new(self, request)
    }

    pub fn search_grpc_call(&self, request: SearchGrpcRequest) -> (r: SearchGrpcCall<'_>)
        ensures
            r.spec_request() == request,
            r.spec_client() == self,
    {
        SearchGrpcCall::new(self, request)
    }

    pub fn time_machine_call(&self, request: TimeMachineRequest) -> (r: TimeMachineCall<'_>)
        ensures
            r.spec_request() == request,
            r.spec_client() == self,
    {
        TimeMachineCall::new(self, request)
    }

    pub fn time_machine_grpc_call(&self, request: TimeMachineGrpcRequest) -> (r: TimeMachineGrpcCall<'_>)
        ensures
            r.spec_request() == request,
            r.spec_client() == self,
    {
        TimeMachineGrpcCall::new(self, request)
    }
}

} // verus!
