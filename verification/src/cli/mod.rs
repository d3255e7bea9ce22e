//! The command-line subcommands' decisions: arguments, exit codes, and
//! the text the commands print.

pub mod fleet;
pub mod refine;
pub mod scan;
