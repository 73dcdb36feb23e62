//! utils is a tool module that provides easy shell-command parsing,
//! and helper functions.
pub mod convenience;
pub mod parse;
pub mod status_report;
