//! timer is the core module of the library: task building, the time wheel,
//! event handling and the trace of running task instances.
pub mod event_handle;
pub mod runtime_trace;
pub mod slot;
pub mod task;
pub mod timer_core;
