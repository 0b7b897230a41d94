pub mod client;
pub mod intro;
