//! Input model (keys, modifiers, context, resolution) and the default
//! keyboard resolution built from the command catalog.

pub mod keymap;
pub mod shortcuts;

use vstd::prelude::*;

use crate::command::invocation::CommandInvocation;
use crate::focus::FocusTarget;

pub use keymap::{default_keymap, resolve_default, Keymap};
pub use shortcuts::{default_shortcut_registry, shortcut_hint, ShortcutBinding, ShortcutRegistry};
pub use crate::command::kind::ShortcutScope;

verus! {

/// Modifier keys held during a keystroke.
#[derive(Debug, Clone, Copy, PartialEq, Eq, Structural, Hash)]
pub struct Modifiers {
    /// Control is held.
    pub has_ctrl: bool,
    /// Alt is held.
    pub has_alt: bool,
    /// Shift is held.
    pub has_shift: bool,
    /// Meta (Command) is held.
    pub has_meta: bool,
}

impl Modifiers {
    /// Explicit modifier state.
    pub fn new(ctrl: bool, alt: bool, shift: bool, meta: bool) -> (m: Self)
        ensures m == (Modifiers { has_ctrl: ctrl, has_alt: alt, has_shift: shift, has_meta: meta }),
    {
        Modifiers { has_ctrl: ctrl, has_alt: alt, has_shift: shift, has_meta: meta }
    }

    /// Whether no modifier is held.
    pub fn is_empty(self) -> (b: bool)
        ensures b == (!self.has_ctrl && !self.has_alt && !self.has_shift && !self.has_meta),
    {
        !self.has_ctrl && !self.has_alt && !self.has_shift && !self.has_meta
    }
}

impl Default for Modifiers {
    fn default() -> (m: Self)
        ensures m == (Modifiers { has_ctrl: false, has_alt: false, has_shift: false, has_meta: false }),
    {
        Modifiers { has_ctrl: false, has_alt: false, has_shift: false, has_meta: false }
    }
}

/// Platform independent key codes.
#[derive(Debug, Clone, Copy, PartialEq, Eq, Structural, Hash)]
pub enum KeyCode {
    /// A printable character.
    Char(char),
    /// Enter.
    Enter,
    /// Backspace.
    Backspace,
    /// Delete.
    Delete,
    /// Tab.
    Tab,
    /// Escape.
    Escape,
    /// Arrow left.
    Left,
    /// Arrow right.
    Right,
    /// Arrow up.
    Up,
    /// Arrow down.
    Down,
    /// Home.
    Home,
    /// End.
    End,
    /// Page up.
    PageUp,
    /// Page down.
    PageDown,
    /// A function key.
    F(u8),
}

/// One keystroke: the key and the modifiers held.
#[derive(Debug, Clone, Copy, PartialEq, Eq, Structural, Hash)]
pub struct Keystroke {
    /// The key.
    pub key: KeyCode,
    /// The modifiers.
    pub modifiers: Modifiers,
}

impl Keystroke {
    /// A keystroke of `key` with `modifiers`.
    pub fn new(key: KeyCode, modifiers: Modifiers) -> (k: Self)
        ensures k == (Keystroke { key, modifiers }),
    {
        Keystroke { key, modifiers }
    }
}

/// Editor-local input context.
#[derive(Debug, Clone, Copy, PartialEq, Eq, Structural)]
pub struct EditorInputContext {
    /// The editor accepts edits.
    pub is_editable: bool,
    /// The buffer is read-only.
    pub is_read_only: bool,
    /// There is a selection.
    pub has_selection: bool,
}

impl EditorInputContext {
    /// An editor context.
    pub fn new(editable: bool, read_only: bool, has_selection: bool) -> (c: Self)
        ensures c == (EditorInputContext { is_editable: editable, is_read_only: read_only, has_selection }),
    {
        EditorInputContext { is_editable: editable, is_read_only: read_only, has_selection }
    }
}

/// The context a keystroke is resolved in.
#[derive(Debug, Clone, Copy, PartialEq, Eq, Structural)]
pub struct InputContext {
    /// The focused area.
    pub focus: FocusTarget,
    /// A native text input is active.
    pub is_in_text_input: bool,
    /// The command palette is open.
    pub is_command_palette_open: bool,
    /// The editor context, present when the editor has the focus.
    pub editor: Option<EditorInputContext>,
}

impl InputContext {
    /// A plain context with the focus on `focus`.
    pub fn new(focus: FocusTarget) -> (c: Self)
        ensures c == (InputContext { focus, is_in_text_input: false, is_command_palette_open: false, editor: None }),
    {
        InputContext { focus, is_in_text_input: false, is_command_palette_open: false, editor: None }
    }

    /// Adds the editor context.
    pub fn with_editor(self, editor: EditorInputContext) -> (c: Self)
        ensures c == (InputContext { editor: Some(editor), ..self }),
    {
        InputContext { editor: Some(editor), ..self }
    }

    /// Marks whether a text input is active.
    pub fn with_text_input(self, in_text_input: bool) -> (c: Self)
        ensures c == (InputContext { is_in_text_input: in_text_input, ..self }),
    {
        InputContext { is_in_text_input: in_text_input, ..self }
    }

    /// Marks whether the command palette is open.
    pub fn with_command_palette_open(self, command_palette_open: bool) -> (c: Self)
        ensures c == (InputContext { is_command_palette_open: command_palette_open, ..self }),
    {
        InputContext { is_command_palette_open: command_palette_open, ..self }
    }
}

/// What a keystroke resolves to.
#[derive(Debug, PartialEq, Eq)]
pub enum InputResolution {
    /// A command.
    Command(CommandInvocation),
    /// Text to insert.
    InsertText(String),
    /// Nothing.
    Noop,
}

impl Clone for InputResolution {
    fn clone(&self) -> (r: Self)
        ensures r == *self,
    {
        match self {
            InputResolution::Command(c) => InputResolution::Command(c.clone()),
            InputResolution::InsertText(t) => InputResolution::InsertText(t.clone()),
            InputResolution::Noop => InputResolution::Noop,
        }
    }
}

impl InputResolution {
    /// A command resolution.
    pub fn command(invocation: CommandInvocation) -> (r: Self)
        ensures r == InputResolution::Command(invocation),
    {
        InputResolution::Command(invocation)
    }

    /// A text insertion resolution.
    pub fn insert_text(text: &str) -> (r: Self)
        ensures r matches InputResolution::InsertText(t) && t@ == text@,
    {
        InputResolution::InsertText(text.to_owned())
    }

    /// Whether nothing happens.
    pub fn is_noop(&self) -> (b: bool)
        ensures b == (*self is Noop),
    {
        match self {
            InputResolution::Noop => true,
            _ => false,
        }
    }
}

/// Wraps a command as a resolution.
pub fn command(invocation: CommandInvocation) -> (r: InputResolution)
    ensures r == InputResolution::Command(invocation),
{
    InputResolution::Command(invocation)
}

} // verus!
