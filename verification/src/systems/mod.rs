pub mod types;
pub mod compute_proto;
pub mod aggregator;
pub mod primitives;
pub mod regime;
pub mod intro;
