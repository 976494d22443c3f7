//! Key maps: keystrokes bound to resolutions in the editor layer, in a focus
//! scope or globally. A keystroke resolves in the editor layer first (when
//! an editor context is present), then in the focused target's scope, then
//! globally; within a layer the highest priority wins, the earliest binding
//! among equals.

use vstd::prelude::*;

use crate::command::invocation::CommandInvocation;
use crate::command::kind::{kind_bindings, spec_kinds, CommandShortcut, ShortcutScope};
use crate::focus::FocusTarget;

use super::shortcuts::{binding_of, default_shortcut_registry, ShortcutBinding, ShortcutRegistry};
use super::{InputContext, InputResolution, Keystroke};

verus! {

/// The layer a key map entry belongs to.
#[derive(Debug, Clone, Copy, PartialEq, Eq, Structural, Hash)]
pub enum KeymapLayer {
    /// Bindings of the editor, consulted first while an editor context exists.
    Editor,
    /// Bindings that apply while the target has the focus.
    Focus(FocusTarget),
    /// Bindings that apply everywhere.
    Global,
}

/// One key map entry.
#[derive(Debug, PartialEq, Eq)]
pub struct KeymapEntry {
    /// The keystroke.
    pub keystroke: Keystroke,
    /// The layer.
    pub layer: KeymapLayer,
    /// What the keystroke resolves to.
    pub resolution: InputResolution,
    /// Priority within the layer (higher wins).
    pub priority: u8,
}

/// A key map.
#[derive(Debug)]
pub struct Keymap {
    entries: Vec<KeymapEntry>,
}

impl View for Keymap {
    type V = Seq<KeymapEntry>;

    closed spec fn view(&self) -> Seq<KeymapEntry> {
        self.entries@
    }
}

/// The best entry for `key` in `layer` among `es[i..]`, given the best one
/// found before `i` (-1 for none): a strictly higher priority replaces it.
pub open spec fn best_from(es: Seq<KeymapEntry>, key: Keystroke, layer: KeymapLayer, i: int, best: int) -> int
    decreases es.len() - i,
{
    if i < 0 || i >= es.len() {
        best
    } else if es[i].keystroke == key && es[i].layer == layer && (best < 0 || es[i].priority > es[best].priority) {
        best_from(es, key, layer, i + 1, i)
    } else {
        best_from(es, key, layer, i + 1, best)
    }
}

/// The best entry for `key` in `layer`; -1 when there is none.
pub open spec fn best_in(es: Seq<KeymapEntry>, key: Keystroke, layer: KeymapLayer) -> int {
    best_from(es, key, layer, 0, -1)
}

/// What `key` resolves to in `context`.
pub open spec fn resolve_spec(es: Seq<KeymapEntry>, key: Keystroke, context: InputContext) -> InputResolution {
    let e = best_in(es, key, KeymapLayer::Editor);
    let f = best_in(es, key, KeymapLayer::Focus(context.focus));
    let g = best_in(es, key, KeymapLayer::Global);
    if context.editor is Some && e >= 0 {
        es[e].resolution
    } else if f >= 0 {
        es[f].resolution
    } else if g >= 0 {
        es[g].resolution
    } else {
        InputResolution::Noop
    }
}

/// The layer of a registry scope.
pub open spec fn layer_of(scope: ShortcutScope) -> KeymapLayer {
    match scope {
        ShortcutScope::Global => KeymapLayer::Global,
        ShortcutScope::Focus(t) => KeymapLayer::Focus(t),
    }
}

/// The key map entry of a registry binding.
pub open spec fn entry_of(b: ShortcutBinding) -> KeymapEntry {
    KeymapEntry {
        keystroke: b.keystroke,
        layer: layer_of(b.scope),
        resolution: InputResolution::Command(b.command),
        priority: b.priority,
    }
}

proof fn lemma_best_from_bounds(es: Seq<KeymapEntry>, key: Keystroke, layer: KeymapLayer, i: int, best: int)
    requires best < es.len(), best < i || best < 0,
    ensures best_from(es, key, layer, i, best) < es.len(),
    decreases es.len() - i,
{
    if 0 <= i < es.len() {
        if es[i].keystroke == key && es[i].layer == layer && (best < 0 || es[i].priority > es[best].priority) {
            lemma_best_from_bounds(es, key, layer, i + 1, i);
        } else {
            lemma_best_from_bounds(es, key, layer, i + 1, best);
        }
    }
}

impl Keymap {
    /// An empty key map.
    pub fn new() -> (k: Self)
        ensures k@ == Seq::<KeymapEntry>::empty(),
    {
        Keymap { entries: Vec::new() }
    }

    /// Binds `key` in `layer` with `priority`.
    pub fn bind(&mut self, layer: KeymapLayer, key: Keystroke, resolution: InputResolution, priority: u8)
        ensures final(self)@ == old(self)@.push(KeymapEntry { keystroke: key, layer, resolution, priority }),
    {
        self.entries.push(KeymapEntry { keystroke: key, layer, resolution, priority });
    }

    /// Binds `key` globally.
    pub fn bind_global(&mut self, key: Keystroke, resolution: InputResolution)
        ensures final(self)@ == old(self)@.push(KeymapEntry { keystroke: key, layer: KeymapLayer::Global, resolution, priority: 0 }),
    {
        self.bind(KeymapLayer::Global, key, resolution, 0);
    }

    /// Binds `key` in the editor layer.
    pub fn bind_editor(&mut self, key: Keystroke, resolution: InputResolution)
        ensures final(self)@ == old(self)@.push(KeymapEntry { keystroke: key, layer: KeymapLayer::Editor, resolution, priority: 0 }),
    {
        self.bind(KeymapLayer::Editor, key, resolution, 0);
    }

    /// Binds `key` while `target` has the focus.
    pub fn bind_focus(&mut self, target: FocusTarget, key: Keystroke, resolution: InputResolution)
        ensures final(self)@ == old(self)@.push(KeymapEntry { keystroke: key, layer: KeymapLayer::Focus(target), resolution, priority: 0 }),
    {
        self.bind(KeymapLayer::Focus(target), key, resolution, 0);
    }

    /// The key map of a shortcut registry: each binding in its scope, with its
    /// priority, resolving to its command.
    pub fn from_shortcut_registry(registry: &ShortcutRegistry) -> (k: Self)
        ensures k@ == registry@.map_values(|b: ShortcutBinding| entry_of(b)),
    {
        let bindings = registry.bindings();
        let mut keymap = Keymap::new();
        let mut i: usize = 0;
        while i < bindings.len()
            invariant
                bindings@ == registry@,
                i <= bindings@.len(),
                keymap@ == bindings@.take(i as int).map_values(|b: ShortcutBinding| entry_of(b)),
            decreases bindings@.len() - i,
        {
            let b = &bindings[i];
            let layer = match b.scope {
                ShortcutScope::Global => KeymapLayer::Global,
                ShortcutScope::Focus(t) => KeymapLayer::Focus(t),
            };
            keymap.bind(layer, b.keystroke, InputResolution::Command(b.command.clone()), b.priority);
            proof {
                assert(bindings@.take(i + 1).map_values(|b: ShortcutBinding| entry_of(b))
                    =~= bindings@.take(i as int).map_values(|b: ShortcutBinding| entry_of(b)).push(entry_of(bindings@[i as int])));
            }
            i = i + 1;
        }
        proof { assert(bindings@.take(bindings@.len() as int) =~= bindings@); }
        keymap
    }

    /// The best entry for `key` in `layer`, if any.
    fn best(&self, key: &Keystroke, layer: KeymapLayer) -> (r: Option<usize>)
        ensures
            r is None <==> best_in(self@, *key, layer) < 0,
            r matches Some(i) ==> i == best_in(self@, *key, layer) && i < self@.len(),
    {
        let mut best: Option<usize> = None;
        let mut i: usize = 0;
        proof { lemma_best_from_bounds(self@, *key, layer, 0, -1); }
        while i < self.entries.len()
            invariant
                i <= self@.len(),
                best matches Some(b) ==> b < i,
                best_in(self@, *key, layer) == best_from(self@, *key, layer, i as int,
                    match best { Some(b) => b as int, None => -1 }),
            decreases self@.len() - i,
        {
            let e = &self.entries[i];
            let better = match best {
                None => true,
                Some(b) => e.priority > self.entries[b].priority,
            };
            if e.keystroke == *key && e.layer == layer && better {
                best = Some(i);
            }
            i = i + 1;
        }
        proof { lemma_best_from_bounds(self@, *key, layer, 0, -1); }
        best
    }

    /// What `input` resolves to in `context`.
    pub fn resolve(&self, input: &Keystroke, context: &InputContext) -> (r: InputResolution)
        ensures r == resolve_spec(self@, *input, *context),
    {
        let e = self.best(input, KeymapLayer::Editor);
        if context.editor.is_some() {
            if let Some(i) = e {
                return self.entries[i].resolution.clone();
            }
        }
        if let Some(i) = self.best(input, KeymapLayer::Focus(context.focus)) {
            return self.entries[i].resolution.clone();
        }
        if let Some(i) = self.best(input, KeymapLayer::Global) {
            return self.entries[i].resolution.clone();
        }
        InputResolution::Noop
    }
}

/// The default key map: the catalog's default shortcuts.
pub fn default_keymap() -> (k: Keymap)
    ensures k@ == kind_bindings(spec_kinds()).map_values(|p: (CommandInvocation, CommandShortcut)| binding_of(p))
        .map_values(|b: ShortcutBinding| entry_of(b)),
{
    Keymap::from_shortcut_registry(&default_shortcut_registry())
}

/// Resolves a keystroke with the default key map.
pub fn resolve_default(input: &Keystroke, context: &InputContext) -> (r: InputResolution)
    ensures r == resolve_spec(
        kind_bindings(spec_kinds()).map_values(|p: (CommandInvocation, CommandShortcut)| binding_of(p))
            .map_values(|b: ShortcutBinding| entry_of(b)), *input, *context),
{
    default_keymap().resolve(input, context)
}

} // verus!
