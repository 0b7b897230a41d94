//! The aggregator client: its transports, and the calls that start a
//! traversal.
use vstd::prelude::*;
use crate::sdk_core::auth::BearerToken;
use crate::sdk_core::config::{
    AggregatorConfig, GrpcTransportConfig, HttpTransportConfig, WsTransportConfig,
    required_matches,
};
use crate::sdk_core::error::SdkError;
use crate::systems::aggregator::bars_pagination::{
    RangeBarsCall, RangeBarsGrpcCall, SearchBarsCall, SearchBarsGrpcCall, TimeMachineBarsCall,
    TimeMachineBarsGrpcCall,
};
use crate::systems::aggregator::types::{
    RangeGrpcRequest, RangeRequest, SearchGrpcRequest, SearchRequest, TimeMachineGrpcRequest,
    TimeMachineRequest,
};

verus! {

/// The aggregator (bars) client: HTTP always, gRPC and WebSocket when
/// configured, and the bearer token sent with every request.
#[derive(Debug, Clone)]
pub struct Aggregator {
    pub http: HttpTransportConfig,
    pub grpc: Option<GrpcTransportConfig>,
    pub ws: Option<WsTransportConfig>,
    pub bearer_token: Option<BearerToken>,
}

impl Aggregator {
    /// A client from `config`; refused when HTTP is not configured.
    pub fn new(config: AggregatorConfig) -> (r: Result<Self, SdkError>)
        ensures
            config.http is Some ==> (r matches Ok(a) && a.http == config.http.unwrap() && a.grpc
                == config.grpc && a.ws == config.ws && a.bearer_token == config.bearer_token),
            config.http is None ==> (r matches Err(SdkError::MissingTransportConfig { transport })
                && transport@ == "http"@),
    {
        match config.http {
            Some(http) => Ok(
                Aggregator {
                    http,
                    grpc: config.grpc,
                    ws: config.ws,
                    bearer_token: config.bearer_token,
                },
            ),
            None => Err(SdkError::missing_transport_config("http")),
        }
    }

    /// A client of the public aggregator hosts.
    pub fn client(bearer_token: Option<BearerToken>) -> (r: Result<Self, SdkError>)
        ensures
            crate::sdk_core::config::public_hosts_outcome(
                r,
                crate::sdk_core::config::MathildePublicHosts::AGGREGATOR_HTTP@,
                crate::sdk_core::config::MathildePublicHosts::AGGREGATOR_GRPC@,
            ),
            r is Ok <==> crate::sdk_core::config::url_parses(crate::sdk_core::config::MathildePublicHosts::AGGREGATOR_HTTP@) && crate::sdk_core::config::url_parses(crate::sdk_core::config::MathildePublicHosts::AGGREGATOR_GRPC@),
            r matches Ok(a) ==> a.http.base_url@ == crate::sdk_core::config::url_serialization(crate::sdk_core::config::MathildePublicHosts::AGGREGATOR_HTTP@) && (a.grpc matches Some(g)
                && g.base_url@ == crate::sdk_core::config::url_serialization(crate::sdk_core::config::MathildePublicHosts::AGGREGATOR_GRPC@)) && (a.ws matches Some(w) && w.base_url@
                == crate::sdk_core::config::wss_of(crate::sdk_core::config::url_serialization(crate::sdk_core::config::MathildePublicHosts::AGGREGATOR_HTTP@))),
            r matches Ok(a) ==> a.grpc is Some && a.ws is Some && a.bearer_token == bearer_token,
    {
        Self::new(AggregatorConfig::mathilde_public_default(bearer_token)?)
    }

    /// The gRPC transport; refused when it is not configured.
    pub fn grpc_transport(&self) -> (r: Result<&GrpcTransportConfig, SdkError>)
        ensures
            required_matches(r, self.grpc, "grpc"@),
    {
        match &self.grpc {
            Some(g) => Ok(g),
            None => Err(SdkError::missing_transport_config("grpc")),
        }
    }

    /// The WebSocket transport; refused when it is not configured.
    pub fn ws_transport(&self) -> (r: Result<&WsTransportConfig, SdkError>)
        ensures
            required_matches(r, self.ws, "ws"@),
    {
        match &self.ws {
            Some(w) => Ok(w),
            None => Err(SdkError::missing_transport_config("ws")),
        }
    }

    pub fn range_call(&self, request: RangeRequest) -> (r: RangeBarsCall<'_>)
        ensures
            r.spec_request() == request,
            r.spec_client() == self,
    {
        RangeBarsCall::new(self, request)
    }

    pub fn range_grpc_call(&self, request: RangeGrpcRequest) -> (r: RangeBarsGrpcCall<'_>)
        ensures
            r.spec_request() == request,
            r.spec_client() == self,
    {
        RangeBarsGrpcCall::new(self, request)
    }

    pub fn search_call(&self, request: SearchRequest) -> (r: SearchBarsCall<'_>)
        ensures
            r.spec_request() == request,
            r.spec_client() == self,
    {
        SearchBarsCall::new(self, request)
    }

    pub fn search_grpc_call(&self, request: SearchGrpcRequest) -> (r: SearchBarsGrpcCall<'_>)
        ensures
            r.spec_request() == request,
            r.spec_client() == self,
    {
        SearchBarsGrpcCall::new(self, request)
    }

    pub fn time_machine_call(&self, request: TimeMachineRequest) -> (r: TimeMachineBarsCall<'_>)
        ensures
            r.spec_request() == request,
            r.spec_client() == self,
    {
        TimeMachineBarsCall::new(self, request)
    }

    pub fn time_machine_grpc_call(&self, request: TimeMachineGrpcRequest) -> (r:
        TimeMachineBarsGrpcCall<'_>)
        ensures
            r.spec_request() == request,
            r.spec_client() == self,
    {
        TimeMachineBarsGrpcCall::new(self, request)
    }
}

} // verus!
