//! The lightweight single-shot command facade shares the session's
//! dispatch pattern; its channel plumbing lives outside the library.
//! The argument checking it needs is verified here.

use crate::events::ComputationError;
use vstd::prelude::*;

verus! {

/// A job id from the host language's signed integer: negative values
/// are invalid arguments.
pub fn id_from_i64(id: i64) -> (r: Result<u64, ComputationError>)
    ensures
        id >= 0 ==> r == Ok::<u64, ComputationError>(id as u64),
        id < 0 ==> (r matches Err(ComputationError::InvalidArgs(m)) && m@
            == "ID of job is invalid"@),
{
    if id >= 0 {
        Ok(id as u64)
    } else {
        Err(ComputationError::InvalidArgs(String::from_str("ID of job is invalid")))
    }
}

} // verus!
