//! State of a chain of task instances.
use vstd::prelude::*;

verus! {

/// Set if the TaskInstancesChain is Living.
pub const LIVING: usize = 2;

/// Set if the TaskInstancesChain has been dropped.
pub const DROPPED: usize = 4;

/// Set if the `TaskInstancesChainMaintainer` has been dropped.
/// Indicates that the running instance of the task is no longer maintained.
pub const ABANDONED: usize = 8;

} // verus!
