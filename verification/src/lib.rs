//! Core data model and verified logic of the zom editor: text positions,
//! ranges and selections, a UTF-8 aware text buffer, editing transactions,
//! editor commands, the runtime bridge, the viewport model, the command
//! catalogs, keyboard input resolution and the desktop workbench state.

pub mod position;
pub mod range;
pub mod selection;
pub mod direction;
pub mod focus;
pub mod text;
pub mod lines;
pub mod editing;
pub mod command;
pub mod input;
pub mod workbench;
