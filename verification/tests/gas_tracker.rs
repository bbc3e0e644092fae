use metered_vm::error::{ActorError, ExitCode};
use metered_vm::gas_tracker::GasTracker;

#[test]
fn new_tracker_reports_what_it_was_given() {
    let t = GasTracker::new(20, 3);
    assert_eq!(t.gas_used(), 3);
    assert_eq!(t.gas_limit(), 20);
}

#[test]
fn charges_add_up() {
    let mut t = GasTracker::new(20, 0);
    for (charge, total) in [(5u64, 5u64), (2, 7), (1, 8), (1, 9), (1, 10), (1, 11)] {
        assert_eq!(t.charge_gas(charge), Ok(()));
        assert_eq!(t.gas_used(), total);
    }
}

#[test]
fn charge_up_to_the_limit_is_accepted() {
    let mut t = GasTracker::new(10, 4);
    assert_eq!(t.charge_gas(6), Ok(()));
    assert_eq!(t.gas_used(), 10);
    assert_eq!(t.charge_gas(0), Ok(()));
    assert_eq!(t.gas_used(), 10);
}

#[test]
fn overflowing_charge_fails_without_partial_credit() {
    let mut t = GasTracker::new(10, 0);
    assert_eq!(t.charge_gas(4), Ok(()));
    assert_eq!(t.charge_gas(4), Ok(()));
    let e = t.charge_gas(3).unwrap_err();
    assert_eq!(e.exit_code(), ExitCode::OutOfGas);
    assert_eq!(e.msg(), "not enough gas");
    assert_eq!(e, ActorError::new(ExitCode::OutOfGas, "not enough gas"));
    assert_eq!(t.gas_used(), 8);
    assert_eq!(t.gas_limit(), 10);
    // a charge that fits is still taken after a failed one
    assert_eq!(t.charge_gas(2), Ok(()));
    assert_eq!(t.gas_used(), 10);
}

#[test]
fn charge_near_the_top_of_the_range_does_not_wrap() {
    let mut t = GasTracker::new(u64::MAX, u64::MAX - 1);
    assert!(t.charge_gas(2).is_err());
    assert!(t.charge_gas(u64::MAX).is_err());
    assert_eq!(t.gas_used(), u64::MAX - 1);
    assert_eq!(t.charge_gas(1), Ok(()));
    assert_eq!(t.gas_used(), u64::MAX);
}

#[test]
fn tracker_that_starts_above_its_limit_takes_nothing() {
    let mut t = GasTracker::new(5, 9);
    assert!(t.charge_gas(0).is_err());
    assert!(t.charge_gas(1).is_err());
    assert_eq!(t.gas_used(), 9);
}
