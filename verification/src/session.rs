//! Session-level vocabulary and decisions.  The session itself wires
//! the three actor loops together and lives outside the library; what
//! it decides when a loop exits is verified here.

use crate::events::{NativeError, Severity};
use vstd::prelude::*;

verus! {

/// A general error shape carried at the session boundary.
#[allow(dead_code)]
#[derive(Debug, Clone, PartialEq, Eq)]
pub struct GeneralError {
    severity: Severity,
    message: String,
}

/// How the session reacts once one of its actor loops has exited.
/// `outcome` is what joining the loop gave: `None` when the loop's
/// task could not be joined at all, `Some` with the loop's own result
/// otherwise.  A clean exit needs nothing more; any abnormal exit is
/// fatal to the whole session and forces the `End` sentinel into the
/// dispatcher, so the group goes down rather than leaving a
/// half-alive session.
pub fn loop_exit_forces_stop(outcome: &Option<Result<(), NativeError>>) -> (r: bool)
    ensures
        r == !(outcome matches Some(Ok(_))),
{
    match outcome {
        Some(Ok(())) => false,
        _ => true,
    }
}

} // verus!
