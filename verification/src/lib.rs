//! Client-contract layer for the public MATHILDE systems: request
//! normalization, time inputs, cursor traversal, reconnect schedules and
//! stream bookkeeping, each stated and proved.
pub mod sdk_core;
pub mod streaming;
pub mod systems;

use vstd::prelude::*;

verus! {

} // verus!
