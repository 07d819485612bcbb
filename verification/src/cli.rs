//! The command line: what can be asked for, and what each command asks the
//! library to do.

pub mod args;
pub mod commands;
