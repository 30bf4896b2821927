use fault_signal::{start, ErrorCode, Termination};
use std::cell::Cell;

fn accepts<T: Termination>(_value: T) {}

fn unit_main() {}

fn failing_main() -> Result<(), ErrorCode> {
    Err(ErrorCode::Fail)
}

#[test]
fn unit_and_result_can_end_a_program() {
    accepts(());
    accepts(Ok::<(), ErrorCode>(()));
    accepts(Err::<(), ErrorCode>(ErrorCode::NoMem));
}

#[test]
fn start_runs_the_entry_function_once() {
    let runs = Cell::new(0u32);
    start(|| {
        runs.set(runs.get() + 1);
    });
    assert_eq!(runs.get(), 1);
}

#[test]
fn start_takes_plain_functions() {
    start(unit_main);
    start(failing_main);
}

#[test]
fn start_drops_a_failure() {
    let seen = Cell::new(false);
    start(|| -> Result<(), ErrorCode> {
        seen.set(true);
        Err(ErrorCode::Busy)
    });
    assert!(seen.get());
}
