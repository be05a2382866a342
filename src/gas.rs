use vstd::prelude::*;

verus! {

/// A gas amount together with where it came from.
#[derive(Clone, Copy, Debug, PartialEq, Eq, Structural)]
pub enum EstimatedGas {
    /// Reported by a successful simulation of the transaction.
    Simulated(u64),
    /// The configured fallback, used when simulation was inconclusive.
    Default(u64),
}

impl EstimatedGas {
    /// The gas amount, whichever variant holds it.
    pub open spec fn amount(self) -> u64 {
        match self {
            EstimatedGas::Simulated(amount) => amount,
            EstimatedGas::Default(amount) => amount,
        }
    }

    pub fn get_amount(&self) -> (r: u64)
        ensures
            r == self.amount(),
    {
        match self {
            EstimatedGas::Simulated(amount) => *amount,
            EstimatedGas::Default(amount) => *amount,
        }
    }
}

/// The part of a chain's gas configuration that estimation reads.
#[derive(Clone, Copy, Debug, PartialEq, Eq, Structural)]
pub struct GasConfig {
    /// Gas units used when simulation gives no usable figure.
    pub default_gas: u64,
    /// Hard ceiling on the gas a transaction may be given.
    pub max_gas: u64,
}

} // verus!
