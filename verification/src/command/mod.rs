//! The command protocol: what the user wants to do (commands, invocations),
//! and the catalogs that describe commands and their default shortcuts.

pub mod invocation;
pub mod catalog;
pub mod kind;
pub mod keyed;
