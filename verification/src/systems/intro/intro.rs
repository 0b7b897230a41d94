//! The paths of the platform documents on the intro host.
use vstd::prelude::*;

verus! {

/// The intro document: the host root (the service may redirect it).
pub const INTRO_PATH: &'static str = "/";

/// The due-diligence index.
pub const DUE_DILIGENCE_PATH: &'static str = "/v1/due-diligence";

/// The review pack of the regime Kalman local-trend state.
pub const DUE_DILIGENCE_REGIME_KALMAN_LOCAL_TREND_STATE_PATH: &'static str =
    "/v1/due-diligence/regime/kalman_local_trend_state";

/// The review pack of the regime flow absorption elasticity state.
pub const DUE_DILIGENCE_REGIME_FLOW_ABSORPTION_ELASTICITY_STATE_PATH: &'static str =
    "/v1/due-diligence/regime/flow_absorption_elasticity_state";

/// The review pack of the primitives correlation family.
pub const DUE_DILIGENCE_PRIMITIVES_CORRELATION_PATH: &'static str = "/v1/due-diligence/primitives/correlation";

/// The review pack of the primitives drawdown family.
pub const DUE_DILIGENCE_PRIMITIVES_DRAWDOWN_PATH: &'static str = "/v1/due-diligence/primitives/drawdown";

} // verus!
