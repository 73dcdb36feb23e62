//! The trace of running task instances.
//!
//! # TaskTrace
//!
//! Holds the handle of every running task instance, by task id and record
//! id, so that a running instance can be cancelled.
//!
//! # Sweeper
//!
//! Keeps the deadlines of instances that have a maximum running time and
//! gives, in order of deadline, those whose deadline has passed.
pub mod state;
pub mod sweeper;
pub mod task_handle;
pub mod task_instance;
