//! States of task instances and of chains of task instances.
pub mod instance;
pub mod instance_chain;
