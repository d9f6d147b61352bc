use ssa_ir::process::{process, ProcessFlags};

#[test]
fn process_trap_exit_is_not_set_by_default() {
    let process = process();

    assert_eq!(process.are_flags_set(ProcessFlags::TrapExit), false);
}

#[test]
fn process_returns_true_for_the_default_old_value() {
    let mut process = process();

    assert_eq!(process.trap_exit(true), false);
}

#[test]
fn returns_old_value() {
    let mut process = process();

    assert_eq!(process.trap_exit(true), false);
    assert_eq!(process.trap_exit(false), true);
}

#[test]
fn process_returns_false_by_default() {
    let process = process();

    assert_eq!(process.traps_exit(), false);
}

#[test]
fn process_returns_true_after_trap_exit_true() {
    let mut process = process();

    assert_eq!(process.trap_exit(true), false);
    assert_eq!(process.traps_exit(), true);
}
