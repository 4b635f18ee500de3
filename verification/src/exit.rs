//! Turning the way a child process ended into the exit code of the wrapper.

use vstd::prelude::*;

verus! {

/// The exit code reported when nothing better is known, and for every failure
/// of the wrapper itself.
pub const FAILURE_CODE: i32 = 255;

/// The offset added to a signal number to form an exit code.
pub const SIGNAL_BASE: i32 = 128;

/// The exit code that stands for a given way of terminating: the child's own
/// code when it has one, otherwise the signal number raised by
/// [`SIGNAL_BASE`], otherwise [`FAILURE_CODE`].
pub open spec fn exit_code_of(code: Option<i32>, signal: Option<i32>) -> int {
    match (code, signal) {
        (Some(c), _) => c as int,
        (None, Some(n)) => SIGNAL_BASE + n,
        (None, None) => FAILURE_CODE as int,
    }
}

/// Computes the wrapper's exit code from how the child ended.
///
/// `code` is the child's explicit exit code, `signal` the number of the signal
/// that ended it on hosts that know signals.
pub fn get_exit_code(code: Option<i32>, signal: Option<i32>) -> (result: i32)
    requires
        code is None && signal is Some ==> SIGNAL_BASE + signal->0 <= i32::MAX,
    ensures
        result == exit_code_of(code, signal),
{
    match code {
        Some(c) => c,
        None => match signal {
            Some(n) => SIGNAL_BASE + n,
            None => FAILURE_CODE,
        },
    }
}

} // verus!
