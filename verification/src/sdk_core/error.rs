//! The library's error type.
use vstd::prelude::*;

verus! {

/// `url::ParseError`, carried inside [`SdkError::InvalidUrl`].
#[verifier::external_type_specification]
#[verifier::external_body]
pub struct ExUrlParseError(url::ParseError);

/// `reqwest::Error`, carried by the transport and decode variants.
#[verifier::external_type_specification]
#[verifier::external_body]
pub struct ExReqwestError(reqwest::Error);

/// `tonic::transport::Error`, carried by the gRPC transport variant.
#[verifier::external_type_specification]
#[verifier::external_body]
pub struct ExTonicTransportError(tonic::transport::Error);

/// `tonic::Code`, carried by the gRPC status variant.
#[verifier::external_type_specification]
#[verifier::external_body]
pub struct ExTonicCode(tonic::Code);

/// `tonic::Status`, the outcome of a failed gRPC call.
#[verifier::external_type_specification]
#[verifier::external_body]
pub struct ExTonicStatus(tonic::Status);

/// `tonic::Status::code`. The status is opaque to this library, so nothing
/// is stated of the code it carries.
#[verifier::external_body]
fn tonic_status_code(status: &tonic::Status) -> (r: tonic::Code) {
    status.code()
}

/// `tonic::Status::message`, copied into a `String`. The status is opaque to
/// this library, so nothing is stated of the text.
#[verifier::external_body]
fn tonic_status_message(status: &tonic::Status) -> (r: String) {
    status.message().to_string()
}

/// Every failure the client can report.
#[derive(Debug)]
pub enum SdkError {
    InvalidUrl { input: String, source: url::ParseError },
    MissingTransportConfig { transport: String },
    InvalidAuthToken { message: String },
    InvalidTimeInput { message: String },
    RequestBuild { message: String },
    UnsupportedOrUnprovedUsage { message: String },
    Transport { source: reqwest::Error },
    GrpcTransport { source: tonic::transport::Error },
    GrpcStatus { code: tonic::Code, message: String },
    GrpcMetadata { message: String },
    WsTransport { message: String },
    HttpStatus { status: u16, body: String },
    Decode { source: reqwest::Error },
    ContractDrift { message: String },
}

impl SdkError {
    pub fn invalid_url(input: String, source: url::ParseError) -> (r: Self)
        ensures
            r matches SdkError::InvalidUrl { input: i, source: s } && i == input && s == source,
    {
        SdkError::InvalidUrl { input, source }
    }

    pub fn missing_transport_config(transport: &str) -> (r: Self)
        ensures
            r matches SdkError::MissingTransportConfig { transport: t } && t@ == transport@,
    {
        SdkError::MissingTransportConfig { transport: String::from_str(transport) }
    }

    pub fn invalid_auth_token(message: &str) -> (r: Self)
        ensures
            r matches SdkError::InvalidAuthToken { message: m } && m@ == message@,
    {
        SdkError::InvalidAuthToken { message: String::from_str(message) }
    }

    pub fn invalid_time_input(message: String) -> (r: Self)
        ensures
            r matches SdkError::InvalidTimeInput { message: m } && m == message,
    {
        SdkError::InvalidTimeInput { message }
    }

    pub fn request_build(message: String) -> (r: Self)
        ensures
            r matches SdkError::RequestBuild { message: m } && m == message,
    {
        SdkError::RequestBuild { message }
    }

    pub fn unsupported_or_unproved_usage(message: String) -> (r: Self)
        ensures
            r matches SdkError::UnsupportedOrUnprovedUsage { message: m } && m == message,
    {
        SdkError::UnsupportedOrUnprovedUsage { message }
    }

    pub fn grpc_transport(source: tonic::transport::Error) -> (r: Self)
        ensures
            r matches SdkError::GrpcTransport { source: s } && s == source,
    {
        SdkError::GrpcTransport { source }
    }

    /// A failed gRPC call: its status code and message.
    pub fn grpc_status(status: tonic::Status) -> (r: Self)
        ensures
            r matches SdkError::GrpcStatus { .. },
    {
        SdkError::GrpcStatus { code: tonic_status_code(&status), message: tonic_status_message(&status) }
    }

    pub fn grpc_metadata(message: String) -> (r: Self)
        ensures
            r matches SdkError::GrpcMetadata { message: m } && m == message,
    {
        SdkError::GrpcMetadata { message }
    }

    pub fn ws_transport(message: String) -> (r: Self)
        ensures
            r matches SdkError::WsTransport { message: m } && m == message,
    {
        SdkError::WsTransport { message }
    }

    pub fn contract_drift(message: String) -> (r: Self)
        ensures
            r matches SdkError::ContractDrift { message: m } && m == message,
    {
        SdkError::ContractDrift { message }
    }
}

} // verus!
