//! Editing: document state, atomic transactions and high-level editor commands.

pub mod state;
pub mod transaction;
pub mod invocation;
pub mod search;
pub mod laws;
pub mod command_laws;
pub mod protocol;
pub mod buffer;
pub mod line_ranges;
pub mod viewport;
pub mod runtime_bridge;
