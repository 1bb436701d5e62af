//! The decision half of the `ExternalLibCall` handler: the loading and
//! linking of the shared library is inherently unsafe and happens
//! outside the library; the errors it reports and the packaging of its
//! two results are verified here.

use crate::events::{NativeError, NativeErrorKind, Severity};
use crate::operations::OperationOutcome;
use crate::runtime::{call_result_to_json, json_of_call};
use vstd::prelude::*;

verus! {

/// The message reported when the shared library cannot be loaded.
pub open spec fn load_error_text(detail: Seq<char>) -> Seq<char> {
    "Fail to load lib: "@ + detail
}

/// The error for a failed library load.
pub fn lib_load_error(detail: &str) -> (r: NativeError)
    ensures
        r.severity == Severity::ERROR,
        r.kind == NativeErrorKind::ComputationFailed,
        r.message matches Some(m) && m@ == load_error_text(detail@),
{
    let mut msg = String::from_str("Fail to load lib: ");
    msg.append(detail);
    NativeError {
        severity: Severity::ERROR,
        kind: NativeErrorKind::ComputationFailed,
        message: Some(msg),
    }
}

/// The error for a failed link of the `sum` entry point.
pub fn sum_link_error(detail: &str) -> (r: NativeError)
    ensures
        r.severity == Severity::ERROR,
        r.kind == NativeErrorKind::ComputationFailed,
        r.message matches Some(m) && m@ == "Fail to link \"sum\" func: "@ + detail@,
{
    let mut msg = String::from_str("Fail to link \"sum\" func: ");
    msg.append(detail);
    NativeError {
        severity: Severity::ERROR,
        kind: NativeErrorKind::ComputationFailed,
        message: Some(msg),
    }
}

/// The error for a failed link of the `find` entry point.
pub fn find_link_error(detail: &str) -> (r: NativeError)
    ensures
        r.severity == Severity::ERROR,
        r.kind == NativeErrorKind::ComputationFailed,
        r.message matches Some(m) && m@ == "Fail to link \"find\" func: "@ + detail@,
{
    let mut msg = String::from_str("Fail to link \"find\" func: ");
    msg.append(detail);
    NativeError {
        severity: Severity::ERROR,
        kind: NativeErrorKind::ComputationFailed,
        message: Some(msg),
    }
}

/// Packages the two results of a successful external call: the pair is
/// serialized to JSON — which cannot fail for an integer and an
/// optional string — and carried as the success payload.
pub fn external_call_outcome(sum_value: u64, found: Option<String>) -> (r: OperationOutcome)
    ensures
        r matches OperationOutcome::Success(p) && (p matches Some(s) && s@ == json_of_call(
            sum_value,
            found.deep_view(),
        )),
{
    match call_result_to_json(sum_value, &found) {
        Ok(text) => OperationOutcome::Success(Some(text)),
        Err(msg) => OperationOutcome::SerializationFailed(msg),
    }
}

} // verus!
