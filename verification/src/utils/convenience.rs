//! Convenience
//! It is a module that provides sugar-type and helper function.
use vstd::prelude::*;

use crate::timer::runtime_trace::task_handle::DelayTaskHandler;

pub mod cron_expression_grammatical_candy;
pub mod functions;

verus! {

/// No size type, API compliant consistency.
#[derive(Debug, Clone, Copy, PartialEq, Eq, Structural)]
pub struct MyUnit;

impl DelayTaskHandler for MyUnit {
    /// There is nothing to stop: quitting always succeeds.
    fn quit(self: Box<Self>) -> (r: Result<(), anyhow::Error>)
        ensures
            r is Ok,
    {
        Ok(())
    }
}

} // verus!
