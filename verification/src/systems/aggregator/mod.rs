pub mod types;
pub mod bars;
pub mod files;
pub mod bars_http;
pub mod bars_ws;
pub mod bars_pagination;
pub mod client;
pub mod bars_grpc;
