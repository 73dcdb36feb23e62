//! State of the task instance.
use vstd::prelude::*;

verus! {

/// Set if the task is running.
pub const RUNNING: usize = 2;

/// Set if the task has been completed.
pub const COMPLETED: usize = 4;

/// Set if the task has been Cancelled.
pub const CANCELLED: usize = 8;

/// Set if the task has been Timeout.
pub const TIMEOUT: usize = 16;

} // verus!
