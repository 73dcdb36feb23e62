//! parse
//! It is a module that parses shell commands.
pub mod shell_command;
