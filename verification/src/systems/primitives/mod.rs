pub mod types;
pub mod outputs_http;
pub mod outputs_pagination;
pub mod client;
pub mod messages_ws;
pub mod outputs_grpc;
