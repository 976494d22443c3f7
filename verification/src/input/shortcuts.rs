//! The shortcut registry: every default shortcut of the command catalog as a
//! binding, and the shortcut hints shown next to commands.

use vstd::prelude::*;

use crate::command::invocation::{is_same_invocation, same_invocation, CommandInvocation};
use crate::command::kind::{binding_view, default_shortcut_bindings, kind_bindings, spec_kinds, ShortcutScope};
use crate::lines::{decimal, push_decimal};
use crate::text::string_push;

use super::{KeyCode, Keystroke, Modifiers};

verus! {

/// One shortcut binding: a keystroke in a scope that runs a command.
#[derive(Debug, PartialEq, Eq)]
pub struct ShortcutBinding {
    /// The command.
    pub command: CommandInvocation,
    /// Where the binding applies.
    pub scope: ShortcutScope,
    /// The keystroke.
    pub keystroke: Keystroke,
    /// Priority (higher wins).
    pub priority: u8,
}

/// A binding from a catalog pair.
pub open spec fn binding_of(p: (CommandInvocation, crate::command::kind::CommandShortcut)) -> ShortcutBinding {
    ShortcutBinding { command: p.0, scope: p.1.scope, keystroke: p.1.keystroke, priority: p.1.priority }
}

/// The shortcut bindings, in registration order.
#[derive(Debug)]
pub struct ShortcutRegistry {
    bindings: Vec<ShortcutBinding>,
}

impl View for ShortcutRegistry {
    type V = Seq<ShortcutBinding>;

    closed spec fn view(&self) -> Seq<ShortcutBinding> {
        self.bindings@
    }
}

/// The index of the first binding of `command`, scanning from `i`; -1 when
/// there is none.
pub open spec fn first_binding_of(bs: Seq<ShortcutBinding>, command: CommandInvocation, i: int) -> int
    decreases bs.len() - i,
{
    if i < 0 || i >= bs.len() {
        -1
    } else if same_invocation(bs[i].command, command) {
        i
    } else {
        first_binding_of(bs, command, i + 1)
    }
}

/// The text of a modifier set: `Ctrl+`, `Alt+`, `Cmd+`, `Shift+` in that
/// order, for the modifiers held.
pub open spec fn modifier_label(m: Modifiers) -> Seq<char> {
    (if m.has_ctrl { "Ctrl+"@ } else { Seq::empty() })
        + (if m.has_alt { "Alt+"@ } else { Seq::empty() })
        + (if m.has_meta { "Cmd+"@ } else { Seq::empty() })
        + (if m.has_shift { "Shift+"@ } else { Seq::empty() })
}

/// A character as shown in a hint: ASCII letters in upper case.
pub open spec fn upper(c: char) -> char {
    if 'a' <= c && c <= 'z' { ((c as u32) - 32) as char } else { c }
}

/// The text of a key.
pub open spec fn key_label(k: KeyCode) -> Seq<char> {
    match k {
        KeyCode::Char(c) => seq![upper(c)],
        KeyCode::Enter => "Enter"@,
        KeyCode::Backspace => "Backspace"@,
        KeyCode::Delete => "Delete"@,
        KeyCode::Tab => "Tab"@,
        KeyCode::Escape => "Esc"@,
        KeyCode::Left => "Left"@,
        KeyCode::Right => "Right"@,
        KeyCode::Up => "Up"@,
        KeyCode::Down => "Down"@,
        KeyCode::Home => "Home"@,
        KeyCode::End => "End"@,
        KeyCode::PageUp => "PageUp"@,
        KeyCode::PageDown => "PageDown"@,
        KeyCode::F(n) => "F"@ + decimal(n as nat),
    }
}

/// The hint text of a keystroke, such as `Cmd+Shift+E`.
pub open spec fn keystroke_label(k: Keystroke) -> Seq<char> {
    modifier_label(k.modifiers) + key_label(k.key)
}

/// The hint of `command` in the bindings: the keystroke of its first binding.
pub open spec fn hint_spec(bs: Seq<ShortcutBinding>, command: CommandInvocation) -> Option<Seq<char>> {
    let i = first_binding_of(bs, command, 0);
    if i >= 0 { Some(keystroke_label(bs[i].keystroke)) } else { None }
}

fn push_str(dst: &mut String, src: &str)
    ensures final(dst)@ == old(dst)@ + src@,
{
    let chars = crate::text::chars_of(src);
    let ghost start = dst@;
    let mut i: usize = 0;
    while i < chars.len()
        invariant
            chars@ == src@,
            i <= chars@.len(),
            dst@ == start + chars@.take(i as int),
        decreases chars@.len() - i,
    {
        string_push(dst, chars[i]);
        proof { assert(chars@.take(i + 1) =~= chars@.take(i as int).push(chars@[i as int])); }
        i = i + 1;
    }
    proof { assert(chars@.take(chars@.len() as int) =~= chars@); }
}

/// The hint text of a keystroke.
pub fn keystroke_hint(keystroke: Keystroke) -> (s: String)
    ensures s@ == keystroke_label(keystroke),
{
    let mut s = String::new();
    let m = keystroke.modifiers;
    if m.has_ctrl { push_str(&mut s, "Ctrl+"); }
    if m.has_alt { push_str(&mut s, "Alt+"); }
    if m.has_meta { push_str(&mut s, "Cmd+"); }
    if m.has_shift { push_str(&mut s, "Shift+"); }
    proof { assert(s@ =~= modifier_label(m)); }
    match keystroke.key {
        KeyCode::Char(c) => {
            let shown = if 'a' <= c && c <= 'z' { ((c as u8) - 32) as char } else { c };
            string_push(&mut s, shown);
        },
        KeyCode::Enter => push_str(&mut s, "Enter"),
        KeyCode::Backspace => push_str(&mut s, "Backspace"),
        KeyCode::Delete => push_str(&mut s, "Delete"),
        KeyCode::Tab => push_str(&mut s, "Tab"),
        KeyCode::Escape => push_str(&mut s, "Esc"),
        KeyCode::Left => push_str(&mut s, "Left"),
        KeyCode::Right => push_str(&mut s, "Right"),
        KeyCode::Up => push_str(&mut s, "Up"),
        KeyCode::Down => push_str(&mut s, "Down"),
        KeyCode::Home => push_str(&mut s, "Home"),
        KeyCode::End => push_str(&mut s, "End"),
        KeyCode::PageUp => push_str(&mut s, "PageUp"),
        KeyCode::PageDown => push_str(&mut s, "PageDown"),
        KeyCode::F(n) => {
            push_str(&mut s, "F");
            push_decimal(&mut s, n as u64);
        },
    }
    proof { assert(s@ =~= keystroke_label(keystroke)); }
    s
}

impl ShortcutRegistry {
    /// The registry of the catalog's default shortcuts, in declaration order.
    pub fn from_catalog() -> (r: Self)
        ensures r@ == kind_bindings(spec_kinds()).map_values(|p: (CommandInvocation, crate::command::kind::CommandShortcut)| binding_of(p)),
    {
        let defaults = default_shortcut_bindings();
        let ghost pairs = defaults@.map_values(|b: crate::command::kind::DefaultShortcutBinding| binding_view(b));
        let mut bindings: Vec<ShortcutBinding> = Vec::new();
        let mut i: usize = 0;
        while i < defaults.len()
            invariant
                pairs == defaults@.map_values(|b: crate::command::kind::DefaultShortcutBinding| binding_view(b)),
                i <= defaults@.len(),
                bindings@ == pairs.take(i as int).map_values(|p: (CommandInvocation, crate::command::kind::CommandShortcut)| binding_of(p)),
            decreases defaults@.len() - i,
        {
            let d = &defaults[i];
            bindings.push(ShortcutBinding {
                command: d.command.clone(),
                scope: d.shortcut.scope,
                keystroke: d.shortcut.keystroke,
                priority: d.shortcut.priority,
            });
            proof {
                assert(pairs.take(i + 1).map_values(|p: (CommandInvocation, crate::command::kind::CommandShortcut)| binding_of(p))
                    =~= pairs.take(i as int).map_values(|p: (CommandInvocation, crate::command::kind::CommandShortcut)| binding_of(p))
                        .push(binding_of(pairs[i as int])));
            }
            i = i + 1;
        }
        proof { assert(pairs.take(defaults@.len() as int) =~= pairs); }
        ShortcutRegistry { bindings }
    }

    /// The bindings, in registration order.
    pub fn bindings(&self) -> (r: &Vec<ShortcutBinding>)
        ensures r@ == self@,
    {
        &self.bindings
    }

    /// The hint of `command`: the keystroke of its first binding.
    pub fn shortcut_hint(&self, command: &CommandInvocation) -> (r: Option<String>)
        ensures
            r is Some <==> hint_spec(self@, *command) is Some,
            r matches Some(s) ==> s@ == hint_spec(self@, *command)->0,
    {
        let mut i: usize = 0;
        while i < self.bindings.len()
            invariant
                i <= self@.len(),
                first_binding_of(self@, *command, 0) == first_binding_of(self@, *command, i as int),
            decreases self@.len() - i,
        {
            if is_same_invocation(&self.bindings[i].command, command) {
                return Some(keystroke_hint(self.bindings[i].keystroke));
            }
            i = i + 1;
        }
        None
    }
}

/// The registry of the catalog's default shortcuts.
pub fn default_shortcut_registry() -> (r: ShortcutRegistry)
    ensures r@ == kind_bindings(spec_kinds()).map_values(|p: (CommandInvocation, crate::command::kind::CommandShortcut)| binding_of(p)),
{
    ShortcutRegistry::from_catalog()
}

/// The default shortcut hint of a command.
pub fn shortcut_hint(command: &CommandInvocation) -> (r: Option<String>)
    ensures
        ({
            let bs = kind_bindings(spec_kinds()).map_values(|p: (CommandInvocation, crate::command::kind::CommandShortcut)| binding_of(p));
            &&& r is Some <==> hint_spec(bs, *command) is Some
            &&& r matches Some(s) ==> s@ == hint_spec(bs, *command)->0
        }),
{
    default_shortcut_registry().shortcut_hint(command)
}

} // verus!
