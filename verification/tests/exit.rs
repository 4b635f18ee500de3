use cargo_android::exit::{get_exit_code, FAILURE_CODE, SIGNAL_BASE};

#[test]
fn explicit_code_is_used_verbatim() {
    assert_eq!(get_exit_code(Some(42), None), 42);
    assert_eq!(get_exit_code(Some(0), None), 0);
    assert_eq!(get_exit_code(Some(-1), None), -1);
    assert_eq!(get_exit_code(Some(255), None), 255);
}

#[test]
fn signal_is_raised_by_the_base() {
    assert_eq!(SIGNAL_BASE, 128);
    assert_eq!(get_exit_code(None, Some(9)), 137);
    assert_eq!(get_exit_code(None, Some(15)), 143);
    assert_eq!(get_exit_code(None, Some(1)), 129);
}

#[test]
fn explicit_code_wins_over_signal() {
    assert_eq!(get_exit_code(Some(3), Some(9)), 3);
}

#[test]
fn unknown_termination_falls_back() {
    assert_eq!(FAILURE_CODE, 255);
    assert_eq!(get_exit_code(None, None), 255);
}
