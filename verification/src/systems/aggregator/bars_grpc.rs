//! The gRPC methods of the bars service.
use vstd::prelude::*;

verus! {

pub const LATEST_BARS_PATH: &'static str = "/mathilde.feed.bars.v1.BarsServiceV1/LatestBars";

pub const RANGE_BARS_PATH: &'static str = "/mathilde.feed.bars.v1.BarsServiceV1/RangeBars";

pub const SEARCH_BARS_PATH: &'static str = "/mathilde.feed.bars.v1.BarsServiceV1/SearchBars";

pub const TIME_MACHINE_BARS_PATH: &'static str = "/mathilde.feed.bars.v1.BarsServiceV1/TimeMachineBars";

} // verus!
