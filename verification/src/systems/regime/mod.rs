pub mod types;
pub mod computed;
pub mod pairs;
pub mod docs;
pub mod outputs_http;
pub mod outputs_pagination;
pub mod outputs_ws;
pub mod client;
