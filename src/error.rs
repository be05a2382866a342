use vstd::prelude::*;

verus! {

/// The condition that a chain's gRPC status reports, as far as estimation tells them apart.
#[derive(Clone, Copy, Debug, PartialEq, Eq, Structural)]
pub enum StatusCondition {
    /// Client state verification failed because the client's height is below the proof height.
    ClientStateHeightTooLow,
    /// The account sequence the chain expected differs from the one the transaction carries.
    AccountSequenceMismatch { expected: u64, got: u64 },
    /// A packet was delivered out of its sequence order.
    OutOfOrderPacketSequence,
    /// The transaction holds no messages.
    EmptyTx,
    /// Any other status, including ones not known today.
    Other,
}

/// A failure status returned by a chain's gRPC endpoint.
#[derive(Clone, Copy, Debug, PartialEq, Eq, Structural)]
pub struct GrpcStatusDetail {
    /// The numeric gRPC status code.
    pub code: i32,
    /// What the status message reports.
    pub condition: StatusCondition,
}

/// The errors that estimation consumes or produces.
#[derive(Clone, Debug, PartialEq, Eq)]
pub enum Error {
    /// The chain answered with a failure status.
    GrpcStatus(GrpcStatusDetail),
    /// The estimated gas is above the configured ceiling.
    TxSimulateGasEstimateExceeded { chain_id: String, estimated_gas: u64, max_gas: u64 },
    /// Any other failure, by its message.
    Other(String),
}

/// Whether a status reports a sequence mismatch that submitting anyway may get past:
/// the chain is behind the transaction's sequence.
pub open spec fn is_ignorable_sequence_mismatch(c: StatusCondition) -> bool {
    c matches StatusCondition::AccountSequenceMismatch { expected, got } && expected < got
}

/// The allow-list of simulation failures after which the transaction may still be accepted.
pub open spec fn is_recoverable(e: Error) -> bool {
    match e {
        Error::GrpcStatus(detail) => match detail.condition {
            StatusCondition::ClientStateHeightTooLow => true,
            StatusCondition::AccountSequenceMismatch { .. } => is_ignorable_sequence_mismatch(
                detail.condition,
            ),
            StatusCondition::OutOfOrderPacketSequence => true,
            StatusCondition::EmptyTx => true,
            StatusCondition::Other => false,
        },
        _ => false,
    }
}

/// What tonic's `Code::from_i32(code)` displays as.
pub uninterp spec fn grpc_code_text(code: i32) -> Seq<char>;

/// Relies on tonic's `Code::from_i32` and `Display for Code`: the text is the code's fixed
/// description, and every code outside `0..=16` is read as `Code::Unknown` (2).
#[verifier::external_body]
fn grpc_code_description(code: i32) -> (r: String)
    ensures
        r@ == grpc_code_text(code),
        (code < 0 || code > 16) ==> r@ == grpc_code_text(2),
{
    tonic::Code::from_i32(code).to_string()
}

/// The decimal digits of `n`, most significant first, with no leading zeros.
pub open spec fn decimal(n: nat) -> Seq<char>
    decreases n,
{
    if n < 10 {
        seq![digit_char(n)]
    } else {
        decimal(n / 10).push(digit_char(n % 10))
    }
}

pub open spec fn digit_char(d: nat) -> char {
    if d < 10 {
        (('0' as u8) + (d as u8)) as char
    } else {
        '?'
    }
}

/// Relies on std's `Display for u64`: plain decimal notation.
#[verifier::external_body]
fn u64_to_decimal(n: u64) -> (r: String)
    ensures
        r@ == decimal(n as nat),
{
    n.to_string()
}

/// The message of a ceiling-exceeded error.
pub open spec fn exceeded_text(chain_id: Seq<char>, estimated_gas: u64, max_gas: u64) -> Seq<char> {
    chain_id + " gas estimate "@ + decimal(estimated_gas as nat)
        + " from simulated Tx exceeds the maximum configured "@ + decimal(max_gas as nat)
}

/// The text reported to telemetry for an error: the status code's description for a gRPC
/// status, the error's message otherwise.
pub open spec fn error_text(e: Error) -> Seq<char> {
    match e {
        Error::GrpcStatus(detail) => grpc_code_text(detail.code),
        Error::TxSimulateGasEstimateExceeded { chain_id, estimated_gas, max_gas } => exceeded_text(
            chain_id@,
            estimated_gas,
            max_gas,
        ),
        Error::Other(message) => message@,
    }
}

/// Determine whether the given simulation error can be recovered from by submitting the
/// transaction anyway.
pub fn can_recover_from_simulation_failure(e: &Error) -> (r: bool)
    ensures
        r == is_recoverable(*e),
{
    match e {
        Error::GrpcStatus(detail) => match detail.condition {
            StatusCondition::ClientStateHeightTooLow => true,
            StatusCondition::AccountSequenceMismatch { expected, got } => expected < got,
            StatusCondition::OutOfOrderPacketSequence => true,
            StatusCondition::EmptyTx => true,
            StatusCondition::Other => false,
        },
        _ => false,
    }
}

/// The text that describes an error to telemetry.
pub fn get_error_text(e: &Error) -> (r: String)
    ensures
        r@ == error_text(*e),
{
    match e {
        Error::GrpcStatus(detail) => grpc_code_description(detail.code),
        Error::TxSimulateGasEstimateExceeded { chain_id, estimated_gas, max_gas } => {
            let mut text = chain_id.clone();
            text.append(" gas estimate ");
            let estimated = u64_to_decimal(*estimated_gas);
            text.append(estimated.as_str());
            text.append(" from simulated Tx exceeds the maximum configured ");
            let max = u64_to_decimal(*max_gas);
            text.append(max.as_str());
            text
        },
        Error::Other(message) => message.clone(),
    }
}

} // verus!
