//! Gas estimation and fee planning for transactions submitted to a Cosmos chain.
//!
//! The network round trips (signing, simulation, price lookup) are performed by the
//! caller; this library decides what their outcomes mean.

mod error;
mod estimate;
mod gas;

pub use error::{
    can_recover_from_simulation_failure, get_error_text, Error, GrpcStatusDetail,
    StatusCondition,
};
pub use estimate::{
    estimate_fee_from_simulation, estimate_gas_from_simulation, next_fee_step, FeePlan, FeeStep,
    GasEstimation, SimulateErrorEvent,
};
pub use gas::{EstimatedGas, GasConfig};
