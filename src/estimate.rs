use vstd::prelude::*;

use crate::error::{
    can_recover_from_simulation_failure, error_text, get_error_text, is_ignorable_sequence_mismatch,
    is_recoverable, Error, StatusCondition,
};
use crate::gas::{EstimatedGas, GasConfig};

verus! {

/// A telemetry record of a failed simulation.
#[derive(Clone, Debug, PartialEq, Eq)]
pub struct SimulateErrorEvent {
    /// The address of the account that signed the simulated transaction.
    pub account_address: String,
    /// Whether estimation fell back on the default gas instead of failing.
    pub recoverable: bool,
    /// The error's text, as `get_error_text` gives it.
    pub error_text: String,
}

impl View for SimulateErrorEvent {
    type V = (Seq<char>, bool, Seq<char>);

    open spec fn view(&self) -> (Seq<char>, bool, Seq<char>) {
        (self.account_address@, self.recoverable, self.error_text@)
    }
}

/// What the gas estimator concludes from one simulation.
#[derive(Debug, PartialEq, Eq)]
pub struct GasEstimation {
    /// The gas to use, or the error to hand on.
    pub estimated_gas: Result<EstimatedGas, Error>,
    /// The telemetry record to emit, if any.
    pub telemetry: Option<SimulateErrorEvent>,
}

/// The next thing the fee orchestrator does once the gas is resolved.
#[derive(Clone, Debug, PartialEq, Eq)]
pub enum FeeStep {
    /// Ask the fee calculator for the fee of `gas_amount` units, and return that fee paired
    /// with `estimated_gas`.
    ComputeFee { gas_amount: u64, estimated_gas: EstimatedGas },
    /// Stop with this error; no fee is computed.
    Fail(Error),
}

/// What the fee orchestrator concludes from one simulation.
#[derive(Debug, PartialEq, Eq)]
pub struct FeePlan {
    /// Whether a fee is computed, and for how much gas.
    pub step: FeeStep,
    /// The telemetry record to emit, if any.
    pub telemetry: Option<SimulateErrorEvent>,
}

/// The gas that a simulation outcome resolves to: the reported figure, the default when
/// there is none or the failure is recoverable, and the failure itself otherwise.
pub open spec fn resolved_gas(gas_config: GasConfig, simulated: Result<Option<u64>, Error>) -> Result<
    EstimatedGas,
    Error,
> {
    match simulated {
        Ok(Some(gas_used)) => Ok(EstimatedGas::Simulated(gas_used)),
        Ok(None) => Ok(EstimatedGas::Default(gas_config.default_gas)),
        Err(e) => if is_recoverable(e) {
            Ok(EstimatedGas::Default(gas_config.default_gas))
        } else {
            Err(e)
        },
    }
}

/// The telemetry record owed for a simulation outcome: one for each failure, none otherwise.
pub open spec fn simulate_event(account_address: Seq<char>, simulated: Result<Option<u64>, Error>) -> Option<
    (Seq<char>, bool, Seq<char>),
> {
    match simulated {
        Ok(_) => None,
        Err(e) => Some((account_address, is_recoverable(e), error_text(e))),
    }
}

pub open spec fn event_view(event: Option<SimulateErrorEvent>) -> Option<(Seq<char>, bool, Seq<char>)> {
    match event {
        Some(ev) => Some(ev@),
        None => None,
    }
}

/// The step that follows a resolved gas estimate: the ceiling is checked before any fee
/// is computed.
pub open spec fn fee_step(gas_config: GasConfig, chain_id: String, estimated: Result<EstimatedGas, Error>) -> FeeStep {
    match estimated {
        Err(e) => FeeStep::Fail(e),
        Ok(gas) => if gas.amount() > gas_config.max_gas {
            FeeStep::Fail(
                Error::TxSimulateGasEstimateExceeded {
                    chain_id,
                    estimated_gas: gas.amount(),
                    max_gas: gas_config.max_gas,
                },
            )
        } else {
            FeeStep::ComputeFee { gas_amount: gas.amount(), estimated_gas: gas }
        },
    }
}

fn simulate_error_event(account_address: &String, recoverable: bool, e: &Error) -> (r: SimulateErrorEvent)
    ensures
        r@ == (account_address@, recoverable, error_text(*e)),
{
    SimulateErrorEvent {
        account_address: account_address.clone(),
        recoverable,
        error_text: get_error_text(e),
    }
}

/// Decide the gas for a transaction from the outcome of its simulation: the gas used that
/// it reported, if any, or the default gas when the simulation succeeded without a figure
/// or failed recoverably. Any other failure is handed on unchanged. Each failure yields
/// one telemetry record.
pub fn estimate_gas_from_simulation(
    gas_config: &GasConfig,
    account_address: &String,
    simulated: Result<Option<u64>, Error>,
) -> (r: GasEstimation)
    ensures
        r.estimated_gas == resolved_gas(*gas_config, simulated),
        event_view(r.telemetry) == simulate_event(account_address@, simulated),
{
    match simulated {
        Ok(Some(gas_used)) => GasEstimation {
            estimated_gas: Ok(EstimatedGas::Simulated(gas_used)),
            telemetry: None,
        },
        Ok(None) => GasEstimation {
            estimated_gas: Ok(EstimatedGas::Default(gas_config.default_gas)),
            telemetry: None,
        },
        Err(e) => {
            let recoverable = can_recover_from_simulation_failure(&e);
            let event = simulate_error_event(account_address, recoverable, &e);
            if recoverable {
                GasEstimation {
                    estimated_gas: Ok(EstimatedGas::Default(gas_config.default_gas)),
                    telemetry: Some(event),
                }
            } else {
                GasEstimation { estimated_gas: Err(e), telemetry: Some(event) }
            }
        },
    }
}

/// Check a resolved gas estimate against the ceiling: an error is handed on, an amount
/// above `max_gas` fails with a ceiling-exceeded error, and any other amount goes to the
/// fee calculator.
pub fn next_fee_step(gas_config: &GasConfig, chain_id: &String, estimated: Result<EstimatedGas, Error>) -> (r: FeeStep)
    ensures
        r == fee_step(*gas_config, *chain_id, estimated),
{
    match estimated {
        Err(e) => FeeStep::Fail(e),
        Ok(gas) => {
            let amount = gas.get_amount();
            if amount > gas_config.max_gas {
                FeeStep::Fail(
                    Error::TxSimulateGasEstimateExceeded {
                        chain_id: chain_id.clone(),
                        estimated_gas: amount,
                        max_gas: gas_config.max_gas,
                    },
                )
            } else {
                FeeStep::ComputeFee { gas_amount: amount, estimated_gas: gas }
            }
        },
    }
}

/// Decide, from the outcome of a simulation, whether a fee is computed and for how much
/// gas: the gas estimator's conclusion followed by the ceiling check.
pub fn estimate_fee_from_simulation(
    gas_config: &GasConfig,
    chain_id: &String,
    account_address: &String,
    simulated: Result<Option<u64>, Error>,
) -> (r: FeePlan)
    ensures
        r.step == fee_step(*gas_config, *chain_id, resolved_gas(*gas_config, simulated)),
        event_view(r.telemetry) == simulate_event(account_address@, simulated),
{
    let estimation = estimate_gas_from_simulation(gas_config, account_address, simulated);
    let step = next_fee_step(gas_config, chain_id, estimation.estimated_gas);
    FeePlan { step, telemetry: estimation.telemetry }
}

/// A simulation that reports the gas it used resolves to exactly that figure, marked as
/// simulated, and no telemetry record is owed.
pub proof fn lemma_reported_gas_is_used(gas_config: GasConfig, account_address: Seq<char>, gas_used: u64)
    ensures
        resolved_gas(gas_config, Ok(Some(gas_used))) == Ok::<EstimatedGas, Error>(
            EstimatedGas::Simulated(gas_used),
        ),
        EstimatedGas::Simulated(gas_used).amount() == gas_used,
        (simulate_event(account_address, Ok(Some(gas_used))) is None),
{
}

/// A simulation that succeeds without a gas figure resolves to the default gas, without
/// error.
pub proof fn lemma_missing_figure_uses_default(gas_config: GasConfig, account_address: Seq<char>)
    ensures
        resolved_gas(gas_config, Ok(None)) == Ok::<EstimatedGas, Error>(
            EstimatedGas::Default(gas_config.default_gas),
        ),
        (simulate_event(account_address, Ok(None)) is None),
{
}

/// A recoverable simulation failure resolves to the default gas and owes exactly one
/// telemetry record, marked recoverable.
pub proof fn lemma_recoverable_failure_uses_default(
    gas_config: GasConfig,
    account_address: Seq<char>,
    e: Error,
)
    requires
        is_recoverable(e),
    ensures
        resolved_gas(gas_config, Err(e)) == Ok::<EstimatedGas, Error>(
            EstimatedGas::Default(gas_config.default_gas),
        ),
        simulate_event(account_address, Err(e)) == Some((account_address, true, error_text(e))),
{
}

/// Any other simulation failure is handed on unchanged and owes exactly one telemetry
/// record, marked not recoverable.
pub proof fn lemma_fatal_failure_is_propagated(
    gas_config: GasConfig,
    account_address: Seq<char>,
    e: Error,
)
    requires
        !is_recoverable(e),
    ensures
        resolved_gas(gas_config, Err(e)) == Err::<EstimatedGas, Error>(e),
        simulate_event(account_address, Err(e)) == Some((account_address, false, error_text(e))),
{
}

/// Only the four listed conditions of a gRPC status are recoverable; every other error,
/// and every other status, is not.
pub proof fn lemma_recoverable_only_when_listed(e: Error)
    ensures
        is_recoverable(e) <==> (e matches Error::GrpcStatus(detail) && {
            ||| detail.condition is ClientStateHeightTooLow
            ||| is_ignorable_sequence_mismatch(detail.condition)
            ||| detail.condition is OutOfOrderPacketSequence
            ||| detail.condition is EmptyTx
        }),
        !(e is GrpcStatus) ==> !is_recoverable(e),
        (e matches Error::GrpcStatus(detail) && detail.condition == StatusCondition::Other)
            ==> !is_recoverable(e),
{
}

/// Whatever the simulation outcome, a resolved gas amount above the ceiling fails with the
/// ceiling-exceeded error, and no fee is computed.
pub proof fn lemma_over_ceiling_fails(
    gas_config: GasConfig,
    chain_id: String,
    simulated: Result<Option<u64>, Error>,
)
    requires
        (resolved_gas(gas_config, simulated) matches Ok(gas) && gas.amount() > gas_config.max_gas),
    ensures
        fee_step(gas_config, chain_id, resolved_gas(gas_config, simulated)) == FeeStep::Fail(
            (Error::TxSimulateGasEstimateExceeded {
                chain_id,
                estimated_gas: resolved_gas(gas_config, simulated)->Ok_0.amount(),
                max_gas: gas_config.max_gas,
            }),
        ),
        !(fee_step(gas_config, chain_id, resolved_gas(gas_config, simulated)) is ComputeFee),
{
}

/// Whatever the simulation outcome, a resolved gas amount within the ceiling is the amount
/// the fee is computed from, paired with the same estimate.
pub proof fn lemma_within_ceiling_computes_fee(
    gas_config: GasConfig,
    chain_id: String,
    simulated: Result<Option<u64>, Error>,
)
    requires
        (resolved_gas(gas_config, simulated) matches Ok(gas) && gas.amount() <= gas_config.max_gas),
    ensures
        fee_step(gas_config, chain_id, resolved_gas(gas_config, simulated)) == (FeeStep::ComputeFee {
            gas_amount: resolved_gas(gas_config, simulated)->Ok_0.amount(),
            estimated_gas: resolved_gas(gas_config, simulated)->Ok_0,
        }),
{
}

} // verus!
