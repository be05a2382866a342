use gas_estimate::{
    can_recover_from_simulation_failure, estimate_fee_from_simulation, estimate_gas_from_simulation,
    get_error_text, next_fee_step, Error, EstimatedGas, FeeStep, GasConfig, GrpcStatusDetail,
    SimulateErrorEvent, StatusCondition,
};

fn config() -> GasConfig {
    GasConfig { default_gas: 100000, max_gas: 400000 }
}

fn status(code: i32, condition: StatusCondition) -> Error {
    Error::GrpcStatus(GrpcStatusDetail { code, condition })
}

fn chain() -> String {
    "ibc-0".to_string()
}

fn address() -> String {
    "cosmos1qypqxpq9qcrsszg2pvxq6rs0zqg3yyc5lzv7xu".to_string()
}

#[test]
fn get_amount_reads_either_variant() {
    assert_eq!(EstimatedGas::Simulated(250000).get_amount(), 250000);
    assert_eq!(EstimatedGas::Default(100000).get_amount(), 100000);
    assert_eq!(EstimatedGas::Default(0).get_amount(), 0);
    assert_eq!(EstimatedGas::Simulated(u64::MAX).get_amount(), u64::MAX);
}

#[test]
fn reported_gas_is_simulated() {
    let r = estimate_gas_from_simulation(&config(), &address(), Ok(Some(250000)));
    assert_eq!(r.estimated_gas, Ok(EstimatedGas::Simulated(250000)));
    assert_eq!(r.telemetry, None);
}

#[test]
fn reported_zero_gas_is_trusted() {
    let r = estimate_gas_from_simulation(&config(), &address(), Ok(Some(0)));
    assert_eq!(r.estimated_gas, Ok(EstimatedGas::Simulated(0)));
    assert_eq!(r.telemetry, None);
}

#[test]
fn missing_figure_falls_back_on_default() {
    let r = estimate_gas_from_simulation(&config(), &address(), Ok(None));
    assert_eq!(r.estimated_gas, Ok(EstimatedGas::Default(100000)));
    assert_eq!(r.telemetry, None);
}

#[test]
fn each_recoverable_failure_falls_back_with_one_event() {
    let errors = vec![
        status(2, StatusCondition::ClientStateHeightTooLow),
        status(3, StatusCondition::AccountSequenceMismatch { expected: 5, got: 7 }),
        status(2, StatusCondition::OutOfOrderPacketSequence),
        status(2, StatusCondition::EmptyTx),
    ];
    for e in errors {
        let text = get_error_text(&e);
        let r = estimate_gas_from_simulation(&config(), &address(), Err(e));
        assert_eq!(r.estimated_gas, Ok(EstimatedGas::Default(100000)));
        assert_eq!(
            r.telemetry,
            Some(SimulateErrorEvent { account_address: address(), recoverable: true, error_text: text })
        );
    }
}

#[test]
fn fatal_failure_is_propagated_with_one_event() {
    let e = status(13, StatusCondition::Other);
    let r = estimate_gas_from_simulation(&config(), &address(), Err(e.clone()));
    assert_eq!(r.estimated_gas, Err(e));
    assert_eq!(
        r.telemetry,
        Some(SimulateErrorEvent {
            account_address: address(),
            recoverable: false,
            error_text: "Internal error".to_string(),
        })
    );
}

#[test]
fn only_listed_failures_are_recoverable() {
    assert!(can_recover_from_simulation_failure(&status(2, StatusCondition::ClientStateHeightTooLow)));
    assert!(can_recover_from_simulation_failure(&status(2, StatusCondition::OutOfOrderPacketSequence)));
    assert!(can_recover_from_simulation_failure(&status(2, StatusCondition::EmptyTx)));
    assert!(can_recover_from_simulation_failure(&status(
        2,
        StatusCondition::AccountSequenceMismatch { expected: 5, got: 7 }
    )));
    assert!(!can_recover_from_simulation_failure(&status(
        2,
        StatusCondition::AccountSequenceMismatch { expected: 7, got: 5 }
    )));
    assert!(!can_recover_from_simulation_failure(&status(
        2,
        StatusCondition::AccountSequenceMismatch { expected: 5, got: 5 }
    )));
    assert!(!can_recover_from_simulation_failure(&status(2, StatusCondition::Other)));
    assert!(!can_recover_from_simulation_failure(&status(1000, StatusCondition::Other)));
    assert!(!can_recover_from_simulation_failure(&Error::Other("connection refused".to_string())));
    assert!(!can_recover_from_simulation_failure(&Error::TxSimulateGasEstimateExceeded {
        chain_id: chain(),
        estimated_gas: 1,
        max_gas: 0,
    }));
}

#[test]
fn error_text_of_status_is_code_description() {
    assert_eq!(get_error_text(&status(2, StatusCondition::Other)), "Unknown error");
    assert_eq!(
        get_error_text(&status(5, StatusCondition::EmptyTx)),
        "Some requested entity was not found"
    );
    assert_eq!(get_error_text(&status(13, StatusCondition::Other)), "Internal error");
    assert_eq!(get_error_text(&status(99, StatusCondition::Other)), "Unknown error");
    assert_eq!(get_error_text(&status(-1, StatusCondition::Other)), "Unknown error");
}

#[test]
fn error_text_of_other_errors_is_their_message() {
    assert_eq!(get_error_text(&Error::Other("connection refused".to_string())), "connection refused");
    assert_eq!(
        get_error_text(&Error::TxSimulateGasEstimateExceeded {
            chain_id: chain(),
            estimated_gas: 500000,
            max_gas: 400000,
        }),
        "ibc-0 gas estimate 500000 from simulated Tx exceeds the maximum configured 400000"
    );
    assert_eq!(
        get_error_text(&Error::TxSimulateGasEstimateExceeded {
            chain_id: chain(),
            estimated_gas: u64::MAX,
            max_gas: 0,
        }),
        "ibc-0 gas estimate 18446744073709551615 from simulated Tx exceeds the maximum configured 0"
    );
}

#[test]
fn ceiling_is_checked_for_each_variant() {
    assert_eq!(
        next_fee_step(&config(), &chain(), Ok(EstimatedGas::Default(400001))),
        FeeStep::Fail(Error::TxSimulateGasEstimateExceeded {
            chain_id: chain(),
            estimated_gas: 400001,
            max_gas: 400000,
        })
    );
    assert_eq!(
        next_fee_step(&config(), &chain(), Ok(EstimatedGas::Simulated(400000))),
        FeeStep::ComputeFee { gas_amount: 400000, estimated_gas: EstimatedGas::Simulated(400000) }
    );
    let e = Error::Other("signing failed".to_string());
    assert_eq!(next_fee_step(&config(), &chain(), Err(e.clone())), FeeStep::Fail(e));
}

#[test]
fn default_above_ceiling_fails() {
    let cfg = GasConfig { default_gas: 500000, max_gas: 400000 };
    let plan = estimate_fee_from_simulation(&cfg, &chain(), &address(), Ok(None));
    assert_eq!(
        plan.step,
        FeeStep::Fail(Error::TxSimulateGasEstimateExceeded {
            chain_id: chain(),
            estimated_gas: 500000,
            max_gas: 400000,
        })
    );
    assert_eq!(plan.telemetry, None);
}

#[test]
fn scenario_simulated_gas_within_ceiling() {
    let plan = estimate_fee_from_simulation(&config(), &chain(), &address(), Ok(Some(250000)));
    assert_eq!(
        plan.step,
        FeeStep::ComputeFee { gas_amount: 250000, estimated_gas: EstimatedGas::Simulated(250000) }
    );
    assert_eq!(plan.telemetry, None);
}

#[test]
fn scenario_simulated_gas_above_ceiling() {
    let plan = estimate_fee_from_simulation(&config(), &chain(), &address(), Ok(Some(500000)));
    assert_eq!(
        plan.step,
        FeeStep::Fail(Error::TxSimulateGasEstimateExceeded {
            chain_id: chain(),
            estimated_gas: 500000,
            max_gas: 400000,
        })
    );
    assert_eq!(plan.telemetry, None);
}

#[test]
fn scenario_ignorable_sequence_mismatch() {
    let e = status(2, StatusCondition::AccountSequenceMismatch { expected: 10, got: 11 });
    let plan = estimate_fee_from_simulation(&config(), &chain(), &address(), Err(e));
    assert_eq!(
        plan.step,
        FeeStep::ComputeFee { gas_amount: 100000, estimated_gas: EstimatedGas::Default(100000) }
    );
    assert_eq!(
        plan.telemetry,
        Some(SimulateErrorEvent {
            account_address: address(),
            recoverable: true,
            error_text: "Unknown error".to_string(),
        })
    );
}

#[test]
fn scenario_unrelated_internal_error() {
    let e = status(13, StatusCondition::Other);
    let plan = estimate_fee_from_simulation(&config(), &chain(), &address(), Err(e.clone()));
    assert_eq!(plan.step, FeeStep::Fail(e));
    assert_eq!(
        plan.telemetry,
        Some(SimulateErrorEvent {
            account_address: address(),
            recoverable: false,
            error_text: "Internal error".to_string(),
        })
    );
}
