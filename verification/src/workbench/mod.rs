//! The desktop workbench state: the file tree, panes and tabs, and the
//! workbench's reaction to commands.

pub mod file_tree;
pub mod listing;
pub mod utils;
pub mod pane;
pub mod tool_bar;
pub mod desktop;
pub mod sample;
pub mod overview;
