//! The intro client: the public platform entry documents.
use vstd::prelude::*;
use crate::sdk_core::auth::BearerToken;
use crate::sdk_core::config::{HttpTransportConfig, IntroConfig};
use crate::sdk_core::error::SdkError;

verus! {

/// The intro client: the HTTP host of the platform documents and the bearer
/// token sent with every request.
#[derive(Debug, Clone)]
pub struct Intro {
    pub http: HttpTransportConfig,
    pub bearer_token: Option<BearerToken>,
}

impl Intro {
    /// A client from `config`; refused when HTTP is not configured.
    pub fn new(config: IntroConfig) -> (r: Result<Self, SdkError>)
        ensures
            config.http is Some ==> (r matches Ok(c) && c.http == config.http.unwrap() && c.bearer_token
                == config.bearer_token),
            config.http is None ==> (r matches Err(SdkError::MissingTransportConfig { transport })
                && transport@ == "http"@),
    {
        match config.http {
            Some(http) => Ok(Intro { http, bearer_token: config.bearer_token }),
            None => Err(SdkError::missing_transport_config("http")),
        }
    }

    /// A client of the public intro host.
    pub fn client(bearer_token: Option<BearerToken>) -> (r: Result<Self, SdkError>)
        ensures
            r is Ok <==> crate::sdk_core::config::url_parses(crate::sdk_core::config::MathildePublicHosts::INTRO@),
            r matches Err(e) ==> crate::sdk_core::config::is_invalid_url_for(e, crate::sdk_core::config::MathildePublicHosts::INTRO@),
            r matches Ok(c) ==> c.http.base_url@ == crate::sdk_core::config::url_serialization(crate::sdk_core::config::MathildePublicHosts::INTRO@)
                && c.bearer_token == bearer_token,
    {
        Self::new(IntroConfig::mathilde_public_default(bearer_token)?)
    }
}

} // verus!
