use pvm_host::bench::{average_nanos, bench_result, warm_plan, GAS_BUDGET, WARM_ITERATIONS};
use pvm_host::driver::{
    bytes_equal, check_interrupt, entry_setup, entry_state, find_export, gas_used, EntrySetup, Interrupt, RunError,
    RunOutcome,
};

#[test]
fn gas_used_is_budget_minus_remaining() {
    assert_eq!(gas_used(100, 30).unwrap(), 70);
    assert_eq!(gas_used(100, 100).unwrap(), 0);
    assert_eq!(gas_used(100, 0).unwrap(), 100);
    assert_eq!(gas_used(GAS_BUDGET, 1).unwrap(), GAS_BUDGET - 1);
}

#[test]
fn gas_out_of_range_is_an_error() {
    assert!(matches!(gas_used(100, -1), Err(RunError::GasOutOfRange(-1))));
    assert!(matches!(gas_used(100, 101), Err(RunError::GasOutOfRange(101))));
}

#[test]
fn only_finished_is_accepted() {
    assert!(check_interrupt(Interrupt::Finished).is_ok());
    for k in [
        Interrupt::Trap,
        Interrupt::Ecalli(3),
        Interrupt::Segfault(0x10000),
        Interrupt::NotEnoughGas,
        Interrupt::Step,
    ] {
        match check_interrupt(k) {
            Err(RunError::Interrupted(got)) => assert_eq!(got, k),
            other => panic!("unexpected: {:?}", other),
        }
    }
}

#[test]
fn export_lookup_finds_first_match() {
    let exports = vec![(b"init".to_vec(), 4), (b"run".to_vec(), 17), (b"run".to_vec(), 99)];
    assert_eq!(find_export(&exports, b"run"), Some(17));
    assert_eq!(find_export(&exports, b"init"), Some(4));
    assert_eq!(find_export(&exports, b"ru"), None);
    assert_eq!(find_export(&Vec::new(), b"run"), None);
}

#[test]
fn bytes_equal_compares_contents() {
    assert!(bytes_equal(b"run", b"run"));
    assert!(!bytes_equal(b"run", b"rux"));
    assert!(!bytes_equal(b"run", b"runs"));
    assert!(bytes_equal(b"", b""));
}

#[test]
fn warm_average_is_total_over_runs() {
    assert_eq!(average_nanos(1000, WARM_ITERATIONS), 100);
    assert_eq!(average_nanos(1009, 10), 100);
    assert_eq!(average_nanos(0, 10), 0);
    assert_eq!(average_nanos(u128::MAX, 1), u128::MAX);
}

#[test]
fn warm_runs_only_for_the_first_model() {
    assert_eq!(warm_plan(true), Some(10));
    assert_eq!(warm_plan(false), None);
}

#[test]
fn entry_setup_takes_the_first_matching_export() {
    let exports = vec![(b"init".to_vec(), 4), (b"run".to_vec(), 17), (b"run".to_vec(), 99)];
    let s = entry_setup(&exports, b"run", 0xfffe0000, 0x30000).unwrap();
    assert_eq!(s, EntrySetup { entry_pc: 17, default_sp: 0xfffe0000, aux_address: 0x30000 });
    assert!(matches!(entry_setup(&exports, b"main", 1, 2), Err(RunError::MissingEntryPoint)));
}

#[test]
fn entry_state_follows_the_calling_convention() {
    let setup = EntrySetup { entry_pc: 17, default_sp: 0xfffe0000, aux_address: 0x30000 };
    let s = entry_state(&setup, 1024, GAS_BUDGET);
    assert_eq!(s.pc, 17);
    assert_eq!(s.ra, 0xffff0000);
    assert_eq!(s.sp, 0xfffe0000);
    assert_eq!(s.aux_address, 0x30000);
    assert_eq!(s.a0, 0x30000);
    assert_eq!(s.a1, 1024);
    assert_eq!(s.gas, GAS_BUDGET as i64);
}

#[test]
fn bench_result_reports_cold_run_and_average() {
    let cold = RunOutcome { result: 0xabc, gas_used: 55 };
    let r = bench_result(cold, 900, Some((10, 1234)));
    assert_eq!(r.result, 0xabc);
    assert_eq!(r.gas_used, 55);
    assert_eq!(r.cold_nanos, 900);
    assert_eq!(r.warm_runs, 10);
    assert_eq!(r.warm_average_nanos, Some(123));
    let r = bench_result(cold, 900, None);
    assert_eq!(r.warm_runs, 0);
    assert_eq!(r.warm_average_nanos, None);
}
