//! Job-orchestration core of an embedded processing session.
//!
//! The library accepts asynchronous work requests ("operations"), tracks
//! which operations are in flight, supports cooperative cancellation with
//! confirmed completion, and reports lifecycle/result events back to a
//! caller through a single ordered event stream.  All state transitions and
//! decisions are verified; the surrounding channel plumbing lives outside
//! the library.

pub mod events;
pub mod external_call;
pub mod operations;
pub mod paths;
pub mod plugin;
pub mod runtime;
pub mod session;
pub mod state;
pub mod text;
pub mod tracker;
pub mod unbound;

use vstd::prelude::*;

verus! {

/// Identity of one operation: the 128-bit value of its UUID.
pub type OperationId = u128;

} // verus!
