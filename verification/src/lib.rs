//! Command dispatch for a Nitrokey command-line tool.
//!
//! The crate resolves a top-level command word to one of a fixed set of
//! operations, hands the remaining tokens to that command's argument
//! parser, and decides which device operation is to be performed.

pub mod command;
pub mod dispatch;
