//! The convenient functions to combine.
use vstd::prelude::*;

use crate::timer::runtime_trace::task_handle::DelayTaskHandler;
use crate::utils::convenience::MyUnit;

verus! {

///convert task_handler of impl DelayTaskHandler to a `Box<dyn DelayTaskHander>`.
pub fn create_delay_task_handler<T: DelayTaskHandler + 'static + Send + Sync>(task_handle: T) -> Box<
    dyn DelayTaskHandler,
> {
    Box::new(task_handle)
}

///Create a Box<dyn DelayTaskHandler> illusion.
pub fn create_default_delay_task_handler() -> Box<dyn DelayTaskHandler> {
    create_delay_task_handler(MyUnit)
}

} // verus!
