//! Transport configuration and the public MATHILDE hosts.
use vstd::prelude::*;
use crate::sdk_core::auth::BearerToken;
use crate::sdk_core::error::SdkError;

verus! {

/// `url::Url`: a parsed absolute URL, carried through as it is.
#[verifier::external_type_specification]
#[verifier::external_body]
pub struct ExUrl(url::Url);

/// `Clone` of `url::Url`: the derived field-by-field copy, so the copy is
/// the same URL.
pub assume_specification[ <url::Url as Clone>::clone ](u: &url::Url) -> (r: url::Url)
    ensures
        r == *u,
;

/// Whether `url::Url::parse` accepts `input` as an absolute URL.
pub uninterp spec fn url_parses(input: Seq<char>) -> bool;

/// The text `url::Url::parse(input)` serializes to (`Url::as_str`), where
/// it parses.
pub uninterp spec fn url_serialization(input: Seq<char>) -> Seq<char>;

/// Whether a URL text starts with the `https` scheme.
pub open spec fn has_https_scheme(s: Seq<char>) -> bool {
    s.len() >= 6 && s.subrange(0, 6) == "https:"@
}

/// An `https` URL text with its scheme changed to `wss`.
pub open spec fn wss_of(s: Seq<char>) -> Seq<char> {
    "wss"@ + s.skip(5)
}

/// A parsed absolute URL together with its serialization. Values are made
/// only by `url_parse` and changed only by `url_set_scheme`, so the text is
/// always what the URL serializes to.
#[derive(Debug, Clone)]
pub struct BaseUrl {
    parsed: url::Url,
    text: String,
}

impl View for BaseUrl {
    type V = Seq<char>;

    closed spec fn view(&self) -> Seq<char> {
        self.text@
    }
}

impl BaseUrl {
    /// The parsed URL.
    pub fn as_url(&self) -> &url::Url {
        &self.parsed
    }

    /// The URL's serialization.
    pub fn as_str(&self) -> (r: &str)
        ensures
            r@ == self@,
    {
        self.text.as_str()
    }
}

/// `url::Url::parse`: `Ok` exactly when the crate accepts `input` as an
/// absolute URL, with the serialization `Url::as_str` gives. The parser
/// lowercases the scheme and writes it first, followed by `:`, so an input
/// that starts with `https:` serializes to a text that does too.
#[verifier::external_body]
fn url_parse(input: &str) -> (r: Result<BaseUrl, url::ParseError>)
    ensures
        r is Ok <==> url_parses(input@),
        r matches Ok(b) ==> b@ == url_serialization(input@),
        r matches Ok(b) ==> (has_https_scheme(input@) ==> has_https_scheme(b@)),
{
    match url::Url::parse(input) {
        Ok(parsed) => {
            let text = parsed.as_str().to_string();
            Ok(BaseUrl { parsed, text })
        },
        Err(e) => Err(e),
    }
}

/// `url::Url::set_scheme`, then the new serialization. A refused scheme
/// leaves the URL as it was. Changing `https` to `wss` is accepted (both are
/// special schemes and an `https` URL has a host); the new text is `wss`
/// followed by the old text from its `:` on. The port is kept: a parsed
/// `https` URL never carries 443, the default of both schemes.
#[verifier::external_body]
fn url_set_scheme(base: &mut BaseUrl, scheme: &str) -> (r: bool)
    ensures
        !r ==> final(base)@ == old(base)@,
        (has_https_scheme(old(base)@) && scheme@ == "wss"@) ==> (r && final(base)@ == wss_of(old(base)@)),
{
    let accepted = base.parsed.set_scheme(scheme).is_ok();
    base.text = base.parsed.as_str().to_string();
    accepted
}

/// The public MATHILDE hosts.
#[derive(Debug, Clone, Copy, Default)]
pub struct MathildePublicHosts;

impl MathildePublicHosts {
    pub const AGGREGATOR_HTTP: &'static str = "https://aggregator.api.mathilde.dev";
    pub const AGGREGATOR_GRPC: &'static str = "https://aggregator.grpc.mathilde.dev";
    pub const PRIMITIVES_HTTP: &'static str = "https://primitives.api.mathilde.dev";
    pub const PRIMITIVES_GRPC: &'static str = "https://primitives.grpc.mathilde.dev";
    pub const REGIME_HTTP: &'static str = "https://regime.api.mathilde.dev";
    pub const REGIME_GRPC: &'static str = "https://regime.grpc.mathilde.dev";
    pub const INTRO: &'static str = "https://api.mathilde.dev";
}

/// Parses `raw` as a base URL, reporting the input on failure.
fn parse_base_url(raw: &str) -> (r: Result<BaseUrl, SdkError>)
    ensures
        r is Ok <==> url_parses(raw@),
        r matches Ok(b) ==> b@ == url_serialization(raw@) && (has_https_scheme(raw@) ==> has_https_scheme(b@)),
        r is Err ==> (r matches Err(SdkError::InvalidUrl { input, .. }) && input@ == raw@),
{
    match url_parse(raw) {
        Ok(u) => Ok(u),
        Err(source) => Err(SdkError::invalid_url(String::from_str(raw), source)),
    }
}

/// The HTTP base URL.
#[derive(Debug, Clone)]
pub struct HttpTransportConfig {
    pub base_url: BaseUrl,
}

impl HttpTransportConfig {
    pub fn new(base_url: &str) -> (r: Result<Self, SdkError>)
        ensures
            r is Ok <==> url_parses(base_url@),
            r is Err ==> (r matches Err(SdkError::InvalidUrl { input, .. }) && input@ == base_url@),
            r matches Ok(c) ==> c.base_url@ == url_serialization(base_url@),
    {
        let base_url = parse_base_url(base_url)?;
        Ok(HttpTransportConfig { base_url })
    }
}

/// The gRPC base URL.
#[derive(Debug, Clone)]
pub struct GrpcTransportConfig {
    pub base_url: BaseUrl,
}

impl GrpcTransportConfig {
    pub fn new(base_url: &str) -> (r: Result<Self, SdkError>)
        ensures
            r is Ok <==> url_parses(base_url@),
            r is Err ==> (r matches Err(SdkError::InvalidUrl { input, .. }) && input@ == base_url@),
            r matches Ok(c) ==> c.base_url@ == url_serialization(base_url@),
    {
        let base_url = parse_base_url(base_url)?;
        Ok(GrpcTransportConfig { base_url })
    }
}

/// The WebSocket base URL.
#[derive(Debug, Clone)]
pub struct WsTransportConfig {
    pub base_url: BaseUrl,
}

impl WsTransportConfig {
    pub fn new(base_url: &str) -> (r: Result<Self, SdkError>)
        ensures
            r is Ok <==> url_parses(base_url@),
            r is Err ==> (r matches Err(SdkError::InvalidUrl { input, .. }) && input@ == base_url@),
            r matches Ok(c) ==> c.base_url@ == url_serialization(base_url@),
    {
        let base_url = parse_base_url(base_url)?;
        Ok(WsTransportConfig { base_url })
    }
}

/// The message of the error returned when the `wss` scheme cannot be set.
pub open spec fn ws_derive_failure_message() -> Seq<char> {
    "failed to derive wss url from https base"@
}

/// `e` is the invalid-URL error that reports `raw` as its input.
pub open spec fn is_invalid_url_for(e: SdkError, raw: Seq<char>) -> bool {
    e matches SdkError::InvalidUrl { input, .. } && input@ == raw
}

/// `e` is the error returned when the `wss` scheme cannot be set.
pub open spec fn is_ws_derive_failure(e: SdkError) -> bool {
    e matches SdkError::ContractDrift { message } && message@ == ws_derive_failure_message()
}

/// The outcome of building a configuration from an HTTP host and a gRPC
/// host, in the order the hosts are read: an unparsable HTTP host is
/// reported first, then an unparsable gRPC host; with both parsed, the
/// result is `Ok` unless the `wss` scheme cannot be set on the HTTP URL,
/// which an `https` URL always accepts.
pub open spec fn public_hosts_outcome<T>(r: Result<T, SdkError>, http: Seq<char>, grpc: Seq<char>) -> bool {
    if !url_parses(http) {
        r matches Err(e) && is_invalid_url_for(e, http)
    } else if !url_parses(grpc) {
        r matches Err(e) && is_invalid_url_for(e, grpc)
    } else if has_https_scheme(http) {
        r is Ok
    } else {
        r is Ok || (r matches Err(e) && is_ws_derive_failure(e))
    }
}

/// The `wss` URL of an `https` base: parse, then change the scheme.
fn derive_ws_url_from_http_base(http_base_url: &str) -> (r: Result<BaseUrl, SdkError>)
    ensures
        !url_parses(http_base_url@) ==> (r matches Err(e) && is_invalid_url_for(e, http_base_url@)),
        url_parses(http_base_url@) ==> (r is Ok || (r matches Err(e) && is_ws_derive_failure(e))),
        url_parses(http_base_url@) && has_https_scheme(http_base_url@) ==> (r matches Ok(u) && u@ == wss_of(
            url_serialization(http_base_url@),
        )),
{
    let mut ws_url = parse_base_url(http_base_url)?;
    if !url_set_scheme(&mut ws_url, "wss") {
        return Err(
            SdkError::contract_drift(
                String::from_str("failed to derive wss url from https base"),
            ),
        );
    }
    Ok(ws_url)
}

/// The transports of a configuration built from `http_host` and
/// `grpc_host`: each URL is its host's serialization, and the WebSocket URL
/// is the `wss` form of the HTTP one when that is an `https` URL.
pub open spec fn public_transports(
    http: Option<HttpTransportConfig>,
    grpc: Option<GrpcTransportConfig>,
    ws: Option<WsTransportConfig>,
    http_host: Seq<char>,
    grpc_host: Seq<char>,
) -> bool {
    &&& http matches Some(h) && h.base_url@ == url_serialization(http_host)
    &&& grpc matches Some(g) && g.base_url@ == url_serialization(grpc_host)
    &&& ws matches Some(w) && (has_https_scheme(http_host) ==> w.base_url@ == wss_of(
        url_serialization(http_host),
    ))
}

/// The public HTTP hosts are `https` URLs.
pub proof fn lemma_public_http_hosts_are_https()
    ensures
        has_https_scheme(MathildePublicHosts::AGGREGATOR_HTTP@),
        has_https_scheme(MathildePublicHosts::PRIMITIVES_HTTP@),
        has_https_scheme(MathildePublicHosts::REGIME_HTTP@),
        has_https_scheme(MathildePublicHosts::INTRO@),
{
    reveal_strlit("https://aggregator.api.mathilde.dev");
    reveal_strlit("https://primitives.api.mathilde.dev");
    reveal_strlit("https://regime.api.mathilde.dev");
    reveal_strlit("https://api.mathilde.dev");
    reveal_strlit("https:");
    assert(MathildePublicHosts::AGGREGATOR_HTTP@.subrange(0, 6) =~= "https:"@);
    assert(MathildePublicHosts::PRIMITIVES_HTTP@.subrange(0, 6) =~= "https:"@);
    assert(MathildePublicHosts::REGIME_HTTP@.subrange(0, 6) =~= "https:"@);
    assert(MathildePublicHosts::INTRO@.subrange(0, 6) =~= "https:"@);
}

/// Transports and credentials of an aggregator client.
#[derive(Debug, Clone, Default)]
pub struct AggregatorConfig {
    pub http: Option<HttpTransportConfig>,
    pub grpc: Option<GrpcTransportConfig>,
    pub ws: Option<WsTransportConfig>,
    pub bearer_token: Option<BearerToken>,
}

/// `Ok` with the transport when it is configured, else the
/// missing-configuration error naming it.
pub open spec fn required_matches<T>(r: Result<&T, SdkError>, o: Option<T>, name: Seq<char>) -> bool {
    match o {
        Some(t) => r matches Ok(x) && *x == t,
        None => r matches Err(SdkError::MissingTransportConfig { transport }) && transport@ == name,
    }
}

impl AggregatorConfig {
    /// The public hosts, with the WebSocket URL derived from the HTTP one.
    pub fn mathilde_public_default(bearer_token: Option<BearerToken>) -> (r: Result<Self, SdkError>)
        ensures
            public_hosts_outcome(
                r,
                MathildePublicHosts::AGGREGATOR_HTTP@,
                MathildePublicHosts::AGGREGATOR_GRPC@,
            ),
            r is Ok <==> url_parses(MathildePublicHosts::AGGREGATOR_HTTP@) && url_parses(MathildePublicHosts::AGGREGATOR_GRPC@),
            r matches Ok(c) ==> public_transports(c.http, c.grpc, c.ws, MathildePublicHosts::AGGREGATOR_HTTP@, MathildePublicHosts::AGGREGATOR_GRPC@)
                && c.bearer_token == bearer_token,
            r matches Ok(c) ==> c.ws matches Some(w) && w.base_url@ == wss_of(url_serialization(MathildePublicHosts::AGGREGATOR_HTTP@)),
    {
        proof {
            lemma_public_http_hosts_are_https();
        }
        let http = HttpTransportConfig::new(MathildePublicHosts::AGGREGATOR_HTTP)?;
        let grpc = GrpcTransportConfig::new(MathildePublicHosts::AGGREGATOR_GRPC)?;
        let ws_url = derive_ws_url_from_http_base(MathildePublicHosts::AGGREGATOR_HTTP)?;
        Ok(AggregatorConfig {
            http: Some(http),
            grpc: Some(grpc),
            ws: Some(WsTransportConfig { base_url: ws_url }),
            bearer_token,
        })
    }

    pub fn require_http(&self) -> (r: Result<&HttpTransportConfig, SdkError>)
        ensures
            required_matches(r, self.http, "http"@),
    {
        match &self.http {
            Some(h) => Ok(h),
            None => Err(SdkError::missing_transport_config("http")),
        }
    }

    pub fn require_grpc(&self) -> (r: Result<&GrpcTransportConfig, SdkError>)
        ensures
            required_matches(r, self.grpc, "grpc"@),
    {
        match &self.grpc {
            Some(g) => Ok(g),
            None => Err(SdkError::missing_transport_config("grpc")),
        }
    }

    pub fn require_ws(&self) -> (r: Result<&WsTransportConfig, SdkError>)
        ensures
            required_matches(r, self.ws, "ws"@),
    {
        match &self.ws {
            Some(w) => Ok(w),
            None => Err(SdkError::missing_transport_config("ws")),
        }
    }
}

/// Transports and credentials of an output-system client (primitives or
/// regime): HTTP is always configured.
#[derive(Debug, Clone)]
pub struct OutputsConfig {
    pub http: HttpTransportConfig,
    pub grpc: Option<GrpcTransportConfig>,
    pub ws: Option<WsTransportConfig>,
    pub bearer_token: Option<BearerToken>,
}

/// The primitives client configuration.
pub type PrimitivesConfig = OutputsConfig;

/// The regime client configuration.
pub type RegimeConfig = OutputsConfig;

impl OutputsConfig {
    /// The public hosts of an output system: `http_host` and `grpc_host`,
    /// with the WebSocket URL derived from the HTTP one.
    pub fn public_default(http_host: &str, grpc_host: &str, bearer_token: Option<BearerToken>) -> (r:
        Result<Self, SdkError>)
        ensures
            public_hosts_outcome(r, http_host@, grpc_host@),
            r matches Ok(c) ==> public_transports(Some(c.http), c.grpc, c.ws, http_host@, grpc_host@)
                && c.bearer_token == bearer_token,
    {
        let http = HttpTransportConfig::new(http_host)?;
        let grpc = GrpcTransportConfig::new(grpc_host)?;
        let ws_url = derive_ws_url_from_http_base(http_host)?;
        Ok(OutputsConfig {
            http,
            grpc: Some(grpc),
            ws: Some(WsTransportConfig { base_url: ws_url }),
            bearer_token,
        })
    }

    /// The primitives public hosts.
    pub fn primitives_public_default(bearer_token: Option<BearerToken>) -> (r: Result<Self, SdkError>)
        ensures
            public_hosts_outcome(
                r,
                MathildePublicHosts::PRIMITIVES_HTTP@,
                MathildePublicHosts::PRIMITIVES_GRPC@,
            ),
            r is Ok <==> url_parses(MathildePublicHosts::PRIMITIVES_HTTP@) && url_parses(MathildePublicHosts::PRIMITIVES_GRPC@),
            r matches Ok(c) ==> public_transports(Some(c.http), c.grpc, c.ws, MathildePublicHosts::PRIMITIVES_HTTP@, MathildePublicHosts::PRIMITIVES_GRPC@)
                && c.bearer_token == bearer_token,
            r matches Ok(c) ==> c.ws matches Some(w) && w.base_url@ == wss_of(url_serialization(MathildePublicHosts::PRIMITIVES_HTTP@)),
    {
        proof {
            lemma_public_http_hosts_are_https();
        }
        Self::public_default(
            MathildePublicHosts::PRIMITIVES_HTTP,
            MathildePublicHosts::PRIMITIVES_GRPC,
            bearer_token,
        )
    }

    /// The regime public hosts.
    pub fn regime_public_default(bearer_token: Option<BearerToken>) -> (r: Result<Self, SdkError>)
        ensures
            public_hosts_outcome(
                r,
                MathildePublicHosts::REGIME_HTTP@,
                MathildePublicHosts::REGIME_GRPC@,
            ),
            r is Ok <==> url_parses(MathildePublicHosts::REGIME_HTTP@) && url_parses(MathildePublicHosts::REGIME_GRPC@),
            r matches Ok(c) ==> public_transports(Some(c.http), c.grpc, c.ws, MathildePublicHosts::REGIME_HTTP@, MathildePublicHosts::REGIME_GRPC@)
                && c.bearer_token == bearer_token,
            r matches Ok(c) ==> c.ws matches Some(w) && w.base_url@ == wss_of(url_serialization(MathildePublicHosts::REGIME_HTTP@)),
    {
        proof {
            lemma_public_http_hosts_are_https();
        }
        Self::public_default(
            MathildePublicHosts::REGIME_HTTP,
            MathildePublicHosts::REGIME_GRPC,
            bearer_token,
        )
    }
}

/// The intro client configuration.
#[derive(Debug, Clone, Default)]
pub struct IntroConfig {
    pub http: Option<HttpTransportConfig>,
    pub bearer_token: Option<BearerToken>,
}

impl IntroConfig {
    /// The public intro host.
    pub fn mathilde_public_default(bearer_token: Option<BearerToken>) -> (r: Result<Self, SdkError>)
        ensures
            r is Ok <==> url_parses(MathildePublicHosts::INTRO@),
            r matches Err(e) ==> is_invalid_url_for(e, MathildePublicHosts::INTRO@),
            r matches Ok(c) ==> c.http matches Some(h) && h.base_url@ == url_serialization(
                MathildePublicHosts::INTRO@,
            ) && c.bearer_token == bearer_token,
    {
        let http = HttpTransportConfig::new(MathildePublicHosts::INTRO)?;
        Ok(IntroConfig { http: Some(http), bearer_token })
    }

    pub fn require_http(&self) -> (r: Result<&HttpTransportConfig, SdkError>)
        ensures
            required_matches(r, self.http, "http"@),
    {
        match &self.http {
            Some(h) => Ok(h),
            None => Err(SdkError::missing_transport_config("http")),
        }
    }
}

} // verus!
