//! A time-wheel based manager of delayed and periodic tasks.
//!
//! The library holds the scheduling core: task frequencies (seconds and cron
//! expressions), the 3600-slot time wheel with its second hand, the
//! bookkeeping of running task instances, the timeout heap of the recycler,
//! and the parsing of shell pipelines. Each piece is stated with contracts
//! over mathematical models and verified.
pub mod entity;
pub mod error;
pub mod prelude;
pub mod timer;
pub mod utils;
