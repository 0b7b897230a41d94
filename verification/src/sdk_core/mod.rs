pub mod text;
pub mod error;
pub mod auth;
pub mod pagination;
pub mod time;
pub mod config;
pub mod order;
