//! The desktop application state and its reaction to commands, keystrokes
//! and file tree activation.

use vstd::prelude::*;

use crate::command::invocation::{CommandInvocation, FileTreeAction, TabAction, WorkspaceAction};
use crate::focus::{spec_is_visibility_managed, FocusTarget};
use crate::input::keymap::{resolve_default, resolve_spec, entry_of};
use crate::input::shortcuts::{binding_of, ShortcutBinding};
use crate::input::{InputContext, InputResolution, Keystroke};
use crate::command::kind::{kind_bindings, spec_kinds, CommandShortcut};
use crate::lines::strings_view;

use super::file_tree::{
    activated_roots, collapsed_roots, ensured_roots, expanded_roots, moved_roots, selected_node_spec,
    toggled_roots, FileTreeNodeKind, FileTreeState, NodeView,
};
use super::pane::{tab_view, tabs_view, BufferId, PaneState, TabState, TabView};
use super::tool_bar::{TitleBarIcon, TitleBarState, ToolBarEntry, ToolBarState};
use super::utils::{file_name_from_path, file_name_of};

verus! {

/// One-shot actions for the UI layer.
#[derive(Debug, Clone, Copy, PartialEq, Eq, Structural, Hash)]
pub enum DesktopUiAction {
    /// Open the project folder picker.
    OpenProjectPicker,
    /// Open the settings.
    OpenSettings,
}

/// The state of the desktop application window.
#[derive(Debug, PartialEq, Eq)]
pub struct DesktopAppState {
    /// The title bar.
    pub title_bar: TitleBarState,
    /// The tool bar.
    pub tool_bar: ToolBarState,
    /// The file tree.
    pub file_tree: FileTreeState,
    /// The pane.
    pub pane: PaneState,
    /// The focused target.
    pub focused_target: FocusTarget,
    /// The visible workbench panels (each listed at least once).
    pub visible_panels: Vec<FocusTarget>,
    /// Name of the open project.
    pub project_name: String,
    /// Root directory of the open project.
    pub project_root: String,
    /// Focus request for the next frame.
    pub pending_focus_target: Option<FocusTarget>,
    /// UI action for the next frame.
    pub pending_ui_action: Option<DesktopUiAction>,
    /// File (relative path) whose contents the UI layer is to load and open.
    pub pending_file_open: Option<String>,
}

/// The desktop state as plain values.
#[verifier::ext_equal]
pub struct DeskView {
    pub title_icons: Seq<TitleBarIcon>,
    pub left_tools: Seq<ToolBarEntry>,
    pub right_tools: Seq<ToolBarEntry>,
    pub cursor: Seq<char>,
    pub language: Seq<char>,
    pub line_ending: Seq<char>,
    pub encoding: Seq<char>,
    pub tree_title: Seq<char>,
    pub roots: Seq<NodeView>,
    pub pane_id: u64,
    pub tabs: Seq<TabView>,
    pub active: Option<usize>,
    pub focused: FocusTarget,
    pub visible: Set<FocusTarget>,
    pub project_name: Seq<char>,
    pub project_root: Seq<char>,
    pub pending_focus: Option<FocusTarget>,
    pub pending_ui: Option<DesktopUiAction>,
    pub pending_open: Option<Seq<char>>,
}

/// The targets listed in a sequence, as a set.
pub open spec fn set_of(v: Seq<FocusTarget>) -> Set<FocusTarget> {
    Set::new(|t: FocusTarget| v.contains(t))
}

impl View for DesktopAppState {
    type V = DeskView;

    open spec fn view(&self) -> DeskView {
        DeskView {
            title_icons: self.title_bar.right_icons@,
            left_tools: self.tool_bar.left_tools@,
            right_tools: self.tool_bar.right_tools@,
            cursor: self.tool_bar.cursor@,
            language: self.tool_bar.language@,
            line_ending: self.tool_bar.line_ending@,
            encoding: self.tool_bar.encoding@,
            tree_title: self.file_tree.title@,
            roots: self.file_tree.roots_view(),
            pane_id: self.pane.id.0,
            tabs: tabs_view(self.pane.tabs@),
            active: self.pane.active_tab_index,
            focused: self.focused_target,
            visible: set_of(self.visible_panels@),
            project_name: self.project_name@,
            project_root: self.project_root@,
            pending_focus: self.pending_focus_target,
            pending_ui: self.pending_ui_action,
            pending_open: match self.pending_file_open { Some(p) => Some(p@), None => None },
        }
    }
}

// ---------------------------------------------------------------------------
// The model
// ---------------------------------------------------------------------------

/// Whether a target shows: targets whose visibility is not managed always do.
pub open spec fn panel_visible(v: DeskView, t: FocusTarget) -> bool {
    !spec_is_visibility_managed(t) || v.visible.contains(t)
}

/// The state with a managed panel shown or hidden (others are ignored).
pub open spec fn with_panel_visible(v: DeskView, t: FocusTarget, visible: bool) -> DeskView {
    if !spec_is_visibility_managed(t) {
        v
    } else if visible {
        DeskView { visible: v.visible.insert(t), ..v }
    } else {
        DeskView { visible: v.visible.remove(t), ..v }
    }
}

/// The state with the editor focused (and the focus requested).
pub open spec fn editor_focused(v: DeskView) -> DeskView {
    DeskView { focused: FocusTarget::Editor, pending_focus: Some(FocusTarget::Editor), ..v }
}

/// Showing and focusing a panel; the file tree also gets a visible selection.
pub open spec fn focus_panel_spec(v: DeskView, t: FocusTarget) -> DeskView {
    let v1 = DeskView { focused: t, pending_focus: Some(t), ..with_panel_visible(v, t, true) };
    if t == FocusTarget::FileTreePanel {
        DeskView { roots: ensured_roots(v1.roots).0, ..v1 }
    } else {
        v1
    }
}

/// Closing the active tab: the next tab takes its place, or the previous one
/// when it was the last; an index past the tabs is dropped.
pub open spec fn close_tab_spec(v: DeskView) -> DeskView {
    match v.active {
        None => v,
        Some(i) => if i >= v.tabs.len() {
            DeskView { active: None, ..v }
        } else {
            let ts = v.tabs.remove(i as int);
            if ts.len() == 0 {
                DeskView { tabs: ts, active: None, ..v }
            } else {
                DeskView { tabs: ts, active: Some(if i < ts.len() { i } else { (ts.len() - 1) as usize }), ..v }
            }
        },
    }
}

/// Closing the focused component: a visible focused panel is hidden and the
/// editor focused; with the editor focused, the active tab is closed.
pub open spec fn close_focused_spec(v: DeskView) -> DeskView {
    let f = v.focused;
    if spec_is_visibility_managed(f) && panel_visible(v, f) {
        editor_focused(with_panel_visible(v, f, false))
    } else if f == FocusTarget::Editor {
        close_tab_spec(v)
    } else {
        v
    }
}

/// Activating a file tree node: a directory toggles; a file becomes the
/// active one, is queued for opening, and the editor is focused.
pub open spec fn node_activate_spec(v: DeskView, p: Seq<char>, kind: FileTreeNodeKind) -> DeskView {
    match kind {
        FileTreeNodeKind::Directory => DeskView { roots: toggled_roots(v.roots, p), ..v },
        FileTreeNodeKind::File => editor_focused(DeskView {
            roots: activated_roots(v.roots, p),
            pending_open: Some(p),
            ..v
        }),
    }
}

/// A file tree command.
pub open spec fn file_tree_step(v: DeskView, c: FileTreeAction) -> DeskView {
    match c {
        FileTreeAction::SelectPrev => DeskView { roots: moved_roots(v.roots, false), ..v },
        FileTreeAction::SelectNext => DeskView { roots: moved_roots(v.roots, true), ..v },
        FileTreeAction::ExpandOrDescend => DeskView { roots: expanded_roots(v.roots), ..v },
        FileTreeAction::CollapseOrAscend => DeskView { roots: collapsed_roots(v.roots), ..v },
        FileTreeAction::ActivateSelection => match selected_node_spec(v.roots) {
            Some(sel) => node_activate_spec(v, sel.0, sel.1),
            None => DeskView { roots: moved_roots(v.roots, true), ..v },
        },
    }
}

/// A workbench command.
pub open spec fn workspace_step(v: DeskView, a: WorkspaceAction) -> DeskView {
    match a {
        WorkspaceAction::FocusPanel(t) => focus_panel_spec(v, t),
        WorkspaceAction::FocusOverlay(_) => DeskView { pending_ui: Some(DesktopUiAction::OpenSettings), ..v },
        WorkspaceAction::CloseFocused => close_focused_spec(v),
        WorkspaceAction::OpenProjectPicker => DeskView { pending_ui: Some(DesktopUiAction::OpenProjectPicker), ..v },
        WorkspaceAction::OpenSettings => DeskView { pending_ui: Some(DesktopUiAction::OpenSettings), ..v },
        WorkspaceAction::OpenCodeActions => v,
        WorkspaceAction::StartDebugging => v,
        WorkspaceAction::FileTree(c) => file_tree_step(v, c),
        WorkspaceAction::Tab(TabAction::CloseActiveTab) => close_tab_spec(v),
        WorkspaceAction::Tab(_) => v,
    }
}

/// A command: workbench commands are handled, editor commands ignored here.
pub open spec fn command_step(v: DeskView, c: CommandInvocation) -> DeskView {
    match c {
        CommandInvocation::Workspace(a) => workspace_step(v, a),
        CommandInvocation::Editor(_) => v,
    }
}

/// The largest buffer id of the tabs (0 without tabs).
pub open spec fn max_id(tabs: Seq<TabView>) -> nat
    decreases tabs.len(),
{
    if tabs.len() == 0 {
        0
    } else {
        let m = max_id(tabs.drop_last());
        if tabs.last().0 > m { tabs.last().0 as nat } else { m }
    }
}

/// The index of the first tab showing `p`; -1 when there is none.
pub open spec fn tab_index_of(tabs: Seq<TabView>, p: Seq<char>, i: int) -> int
    decreases tabs.len() - i,
{
    if i < 0 || i >= tabs.len() {
        -1
    } else if tabs[i].2 == p {
        i
    } else {
        tab_index_of(tabs, p, i + 1)
    }
}

/// The title of a tab showing `p`.
pub open spec fn tab_title(p: Seq<char>) -> Seq<char> {
    match file_name_of(p) {
        Some(n) => n,
        None => p,
    }
}

/// Opening a file in the pane with its preview: a tab already showing it
/// gets the new lines and becomes active; otherwise a new tab with the next
/// buffer id is added and becomes active. The tool bar shows the preview's
/// caret and line ending.
pub open spec fn open_file_spec(v: DeskView, p: Seq<char>, lines: Seq<Seq<char>>, ending: Seq<char>, cursor: Seq<char>) -> DeskView {
    let v1 = DeskView { cursor, line_ending: ending, ..v };
    let k = tab_index_of(v.tabs, p, 0);
    if k >= 0 {
        DeskView { tabs: v.tabs.update(k, (v.tabs[k].0, v.tabs[k].1, v.tabs[k].2, lines)), active: Some(k as usize), ..v1 }
    } else {
        DeskView {
            tabs: v.tabs.push(((max_id(v.tabs) + 1) as u64, tab_title(p), p, lines)),
            active: Some(v.tabs.len() as usize),
            ..v1
        }
    }
}

/// The default key map, as its entries.
pub open spec fn default_entries() -> Seq<crate::input::keymap::KeymapEntry> {
    kind_bindings(spec_kinds()).map_values(|p: (CommandInvocation, CommandShortcut)| binding_of(p))
        .map_values(|b: ShortcutBinding| entry_of(b))
}

proof fn lemma_max_id(tabs: Seq<TabView>, i: int)
    requires 0 <= i < tabs.len(),
    ensures tabs[i].0 <= max_id(tabs),
    decreases tabs.len(),
{
    if i < tabs.len() - 1 {
        lemma_max_id(tabs.drop_last(), i);
    }
}

impl DesktopAppState {
    /// Switches to another project: its root and file tree (read by the
    /// caller) replace the current ones, the project name is the root's file
    /// name, the tabs are closed and the caret text reset.
    pub fn switch_project(&mut self, project_root: &str, file_tree: FileTreeState)
        ensures
            final(self)@ == (DeskView {
                project_name: match file_name_of(project_root@) { Some(n) => n, None => "workspace"@ },
                project_root: project_root@,
                tree_title: file_tree.title@,
                roots: file_tree.roots_view(),
                tabs: Seq::empty(),
                active: None,
                cursor: "1:1"@,
                ..old(self)@
            }),
    {
        self.project_name = super::utils::project_name_from_root(project_root);
        self.project_root = project_root.to_owned();
        self.file_tree = file_tree;
        self.pane.tabs = Vec::new();
        self.pane.active_tab_index = None;
        self.tool_bar.cursor = "1:1".to_owned();
        proof { assert(tabs_view(self.pane.tabs@) =~= Seq::<TabView>::empty()); }
    }

    /// Makes sure the file tree has a visible selection; tells whether it
    /// changed.
    pub fn ensure_file_tree_selection(&mut self) -> (changed: bool)
        ensures
            final(self)@ == (DeskView { roots: ensured_roots(old(self)@.roots).0, ..old(self)@ }),
            changed == ensured_roots(old(self)@.roots).1,
    {
        self.file_tree.ensure_selection()
    }

    /// Resolves a keystroke with the default key map in the focused target's
    /// context and handles the resulting command; tells whether there was one.
    pub fn handle_keystroke(&mut self, keystroke: &Keystroke) -> (handled: bool)
        ensures ({
            let r = resolve_spec(default_entries(), *keystroke, InputContext {
                focus: old(self).focused_target,
                is_in_text_input: false,
                is_command_palette_open: false,
                editor: None,
            });
            &&& handled == (r is Command)
            &&& final(self)@ == (match r { InputResolution::Command(c) => command_step(old(self)@, c), _ => old(self)@ })
        }),
    {
        let context = InputContext::new(self.focused_target);
        match resolve_default(keystroke, &context) {
            InputResolution::Command(command) => {
                self.handle_command(command);
                true
            },
            _ => false,
        }
    }

    /// Whether a target shows (targets whose visibility is not managed always do).
    pub fn is_panel_visible(&self, target: FocusTarget) -> (b: bool)
        ensures b == panel_visible(self@, target),
    {
        if !target.is_visibility_managed_panel() {
            return true;
        }
        let mut i: usize = 0;
        while i < self.visible_panels.len()
            invariant
                i <= self.visible_panels@.len(),
                forall|k: int| 0 <= k < i ==> self.visible_panels@[k] != target,
            decreases self.visible_panels@.len() - i,
        {
            if self.visible_panels[i] == target {
                return true;
            }
            i = i + 1;
        }
        false
    }

    /// Takes the pending focus request.
    pub fn take_pending_focus_target(&mut self) -> (r: Option<FocusTarget>)
        ensures r == old(self)@.pending_focus, final(self)@ == (DeskView { pending_focus: None, ..old(self)@ }),
    {
        let r = self.pending_focus_target;
        self.pending_focus_target = None;
        r
    }

    /// Takes the pending UI action.
    pub fn take_pending_ui_action(&mut self) -> (r: Option<DesktopUiAction>)
        ensures r == old(self)@.pending_ui, final(self)@ == (DeskView { pending_ui: None, ..old(self)@ }),
    {
        let r = self.pending_ui_action;
        self.pending_ui_action = None;
        r
    }

    /// Takes the file queued for opening.
    pub fn take_pending_file_open(&mut self) -> (r: Option<String>)
        ensures
            (match r { Some(p) => Some(p@), None => None }) == old(self)@.pending_open,
            final(self)@ == (DeskView { pending_open: None, ..old(self)@ }),
    {
        let r = match &self.pending_file_open {
            Some(p) => Some(p.clone()),
            None => None,
        };
        self.pending_file_open = None;
        r
    }

    /// Activates a file tree node: a directory toggles; a file becomes the
    /// active one, is queued for opening, and the editor takes the focus.
    pub fn handle_file_tree_node_activate(&mut self, relative_path: &str, kind: FileTreeNodeKind)
        ensures final(self)@ == node_activate_spec(old(self)@, relative_path@, kind),
    {
        match kind {
            FileTreeNodeKind::Directory => self.file_tree.toggle_directory(relative_path),
            FileTreeNodeKind::File => {
                self.file_tree.activate_file(relative_path);
                self.pending_file_open = Some(relative_path.to_owned());
                self.focus_editor();
            },
        }
    }

    /// Handles a command: workbench commands change the workbench; editor
    /// commands are left to the editor.
    pub fn handle_command(&mut self, command: CommandInvocation)
        ensures final(self)@ == command_step(old(self)@, command),
    {
        match command {
            CommandInvocation::Workspace(action) => self.handle_workspace_command(action),
            CommandInvocation::Editor(_) => {},
        }
    }

    fn handle_workspace_command(&mut self, command: WorkspaceAction)
        ensures final(self)@ == workspace_step(old(self)@, command),
    {
        match command {
            WorkspaceAction::FocusPanel(target) => self.focus_panel(target),
            WorkspaceAction::FocusOverlay(_) => {
                self.pending_ui_action = Some(DesktopUiAction::OpenSettings);
            },
            WorkspaceAction::CloseFocused => self.close_focused(),
            WorkspaceAction::OpenProjectPicker => {
                self.pending_ui_action = Some(DesktopUiAction::OpenProjectPicker);
            },
            WorkspaceAction::OpenSettings => {
                self.pending_ui_action = Some(DesktopUiAction::OpenSettings);
            },
            WorkspaceAction::OpenCodeActions => {},
            WorkspaceAction::StartDebugging => {},
            WorkspaceAction::FileTree(c) => self.handle_file_tree_command(c),
            WorkspaceAction::Tab(c) => self.handle_tab_command(c),
        }
    }

    fn handle_file_tree_command(&mut self, command: FileTreeAction)
        ensures final(self)@ == file_tree_step(old(self)@, command),
    {
        match command {
            FileTreeAction::SelectPrev => self.file_tree.select_prev_visible(),
            FileTreeAction::SelectNext => self.file_tree.select_next_visible(),
            FileTreeAction::ExpandOrDescend => self.file_tree.expand_or_descend_selected(),
            FileTreeAction::CollapseOrAscend => self.file_tree.collapse_or_ascend_selected(),
            FileTreeAction::ActivateSelection => {
                match self.file_tree.selected_node() {
                    Some((path, kind)) => self.handle_file_tree_node_activate(path.as_str(), kind),
                    None => self.file_tree.select_next_visible(),
                }
            },
        }
    }

    fn focus_panel(&mut self, target: FocusTarget)
        ensures final(self)@ == focus_panel_spec(old(self)@, target),
    {
        self.set_panel_visible(target, true);
        self.focused_target = target;
        self.pending_focus_target = Some(target);
        if target == FocusTarget::FileTreePanel {
            self.ensure_file_tree_selection();
        }
    }

    fn close_focused(&mut self)
        ensures final(self)@ == close_focused_spec(old(self)@),
    {
        let focused = self.focused_target;
        if focused.is_visibility_managed_panel() && self.is_panel_visible(focused) {
            self.set_panel_visible(focused, false);
            self.focus_editor();
            return;
        }
        if focused == FocusTarget::Editor {
            self.close_active_tab();
        }
    }

    fn handle_tab_command(&mut self, command: TabAction)
        ensures final(self)@ == workspace_step(old(self)@, WorkspaceAction::Tab(command)),
    {
        match command {
            TabAction::CloseActiveTab => self.close_active_tab(),
            TabAction::ActivatePrevTab => {},
            TabAction::ActivateNextTab => {},
        }
    }

    fn close_active_tab(&mut self)
        ensures final(self)@ == close_tab_spec(old(self)@),
    {
        let active_index = match self.pane.active_tab_index {
            None => { return; },
            Some(i) => i,
        };
        if active_index >= self.pane.tabs.len() {
            self.pane.active_tab_index = None;
            return;
        }
        let ghost before = self.pane.tabs@;
        self.pane.tabs.remove(active_index);
        proof { assert(tabs_view(self.pane.tabs@) =~= tabs_view(before).remove(active_index as int)); }
        if self.pane.tabs.len() == 0 {
            self.pane.active_tab_index = None;
            return;
        }
        let last = self.pane.tabs.len() - 1;
        let next = if active_index < self.pane.tabs.len() { active_index } else { last };
        self.pane.active_tab_index = Some(next);
    }

    fn focus_editor(&mut self)
        ensures final(self)@ == editor_focused(old(self)@),
    {
        self.focused_target = FocusTarget::Editor;
        self.pending_focus_target = Some(FocusTarget::Editor);
    }

    /// Shows or hides a panel whose visibility is managed; other targets are
    /// ignored.
    pub fn set_panel_visible(&mut self, target: FocusTarget, visible: bool)
        ensures final(self)@ == with_panel_visible(old(self)@, target, visible),
    {
        if !target.is_visibility_managed_panel() {
            return;
        }
        let ghost before = self.visible_panels@;
        if visible {
            let mut present = false;
            let mut i: usize = 0;
            while i < self.visible_panels.len()
                invariant
                    before == self.visible_panels@,
                    i <= self.visible_panels@.len(),
                    present == exists|k: int| 0 <= k < i && #[trigger] self.visible_panels@[k] == target,
                decreases self.visible_panels@.len() - i,
            {
                if self.visible_panels[i] == target {
                    present = true;
                }
                i = i + 1;
            }
            if !present {
                self.visible_panels.push(target);
                proof {
                    assert forall|x: FocusTarget| #[trigger] set_of(self.visible_panels@).contains(x)
                        <==> set_of(before).insert(target).contains(x) by {
                        if before.contains(x) {
                            let k = choose|k: int| 0 <= k < before.len() && before[k] == x;
                            assert(self.visible_panels@[k] == x);
                        }
                        if x == target {
                            assert(self.visible_panels@[before.len() as int] == x);
                        }
                        if self.visible_panels@.contains(x) {
                            let k = choose|k: int| 0 <= k < self.visible_panels@.len() && self.visible_panels@[k] == x;
                            if k < before.len() { assert(before[k] == x); }
                        }
                    }
                }
            } else {
                proof {
                    let k = choose|k: int| 0 <= k < i && #[trigger] self.visible_panels@[k] == target;
                    assert(before.contains(target));
                }
            }
            proof { assert(set_of(self.visible_panels@) =~= set_of(before).insert(target)); }
        } else {
            let mut kept: Vec<FocusTarget> = Vec::new();
            let mut i: usize = 0;
            while i < self.visible_panels.len()
                invariant
                    before == self.visible_panels@,
                    i <= before.len(),
                    forall|x: FocusTarget| kept@.contains(x) <==> (x != target && before.take(i as int).contains(x)),
                decreases before.len() - i,
            {
                let t = self.visible_panels[i];
                let ghost old_kept = kept@;
                proof { assert(before.take(i + 1) =~= before.take(i as int).push(t)); }
                if t != target {
                    kept.push(t);
                }
                proof {
                    let pre = before.take(i as int);
                    let next = before.take(i + 1);
                    assert forall|x: FocusTarget| kept@.contains(x) <==> (x != target && before.take(i + 1).contains(x)) by {
                        let pre = before.take(i as int);
                        let next = before.take(i + 1);
                        assert(old_kept.contains(x) <==> (x != target && pre.contains(x)));
                        assert(next.contains(x) <==> (pre.contains(x) || x == t)) by {
                            if pre.contains(x) {
                                let k = choose|k: int| 0 <= k < pre.len() && pre[k] == x;
                                assert(next[k] == x);
                            }
                            if x == t {
                                assert(next[i as int] == x);
                            }
                            if next.contains(x) {
                                let k = choose|k: int| 0 <= k < next.len() && next[k] == x;
                                if k < i { assert(pre[k] == x); }
                            }
                        }
                        assert(kept@.contains(x) <==> (old_kept.contains(x) || (t != target && x == t))) by {
                            if old_kept.contains(x) {
                                let k = choose|k: int| 0 <= k < old_kept.len() && old_kept[k] == x;
                                assert(kept@[k] == x);
                            }
                            if t != target && x == t {
                                assert(kept@[old_kept.len() as int] == x);
                            }
                            if kept@.contains(x) {
                                let k = choose|k: int| 0 <= k < kept@.len() && kept@[k] == x;
                                if k < old_kept.len() { assert(old_kept[k] == x); }
                            }
                        }
                    }
                }
                i = i + 1;
            }
            proof { assert(before.take(before.len() as int) =~= before); }
            self.visible_panels = kept;
            proof { assert(set_of(self.visible_panels@) =~= set_of(before).remove(target)); }
        }
    }

    /// Opens a file in the pane with its preview (lines, line ending and
    /// caret text, as loaded by the caller).
    pub fn open_file_in_pane(&mut self, relative_path: &str, buffer_lines: Vec<String>, line_ending: String, cursor: String)
        requires tab_index_of(old(self)@.tabs, relative_path@, 0) >= 0 || max_id(old(self)@.tabs) < u64::MAX,
        ensures final(self)@ == open_file_spec(old(self)@, relative_path@, strings_view(buffer_lines@), line_ending@, cursor@),
    {
        let ghost cursor_view = cursor@;
        let ghost ending_view = line_ending@;
        self.tool_bar.cursor = cursor;
        self.tool_bar.line_ending = line_ending;
        let ghost tabs = tabs_view(self.pane.tabs@);
        let ghost v1 = DeskView { cursor: cursor_view, line_ending: ending_view, ..old(self)@ };
        proof { assert(self@ =~= v1); }
        let mut i: usize = 0;
        let mut max: u64 = 0;
        let n = self.pane.tabs.len();
        while i < n
            invariant
                n == self.pane.tabs@.len(),
                tabs == tabs_view(self.pane.tabs@),
                i <= n,
                max == max_id(tabs.take(i as int)),
                tab_index_of(tabs, relative_path@, 0) == tab_index_of(tabs, relative_path@, i as int),
                tab_index_of(tabs, relative_path@, 0) >= 0 || max_id(tabs) < u64::MAX,
                self@ == v1,
                v1 == (DeskView { cursor: cursor_view, line_ending: ending_view, ..old(self)@ }),
                tabs == old(self)@.tabs,
                cursor_view == cursor@,
                ending_view == line_ending@,
            decreases n - i,
        {
            proof {
                assert(tabs.take(i + 1).drop_last() =~= tabs.take(i as int));
                assert(tabs[i as int].2 == self.pane.tabs@[i as int].relative_path@);
            }
            if self.pane.tabs[i].relative_path.as_str().to_owned() == relative_path.to_owned() {
                proof { assert(tab_index_of(tabs, relative_path@, i as int) == i); }
                let ghost before = self.pane.tabs@;
                self.pane.tabs[i].buffer_lines = buffer_lines;
                self.pane.active_tab_index = Some(i);
                proof {
                    assert(tabs_view(self.pane.tabs@) =~= tabs.update(i as int, (tabs[i as int].0, tabs[i as int].1, tabs[i as int].2, strings_view(buffer_lines@))));
                    assert(self@.tabs =~= open_file_spec(old(self)@, relative_path@, strings_view(buffer_lines@), line_ending@, cursor@).tabs);
                    assert(self@.active == open_file_spec(old(self)@, relative_path@, strings_view(buffer_lines@), line_ending@, cursor@).active);
                    assert(self@.cursor == open_file_spec(old(self)@, relative_path@, strings_view(buffer_lines@), line_ending@, cursor@).cursor);
                    assert(self@.roots == open_file_spec(old(self)@, relative_path@, strings_view(buffer_lines@), line_ending@, cursor@).roots);
                }
                return;
            }
            let id = self.pane.tabs[i].buffer_id.value();
            if id > max {
                max = id;
            }
            i = i + 1;
        }
        proof {
            assert(tabs.take(n as int) =~= tabs);
            assert(tab_index_of(tabs, relative_path@, n as int) == -1);
        }
        let ghost before = self.pane.tabs@;
        self.pane.tabs.push(TabState {
            buffer_id: BufferId::new(max + 1),
            title: file_name_from_path(relative_path),
            relative_path: relative_path.to_owned(),
            buffer_lines,
        });
        self.pane.active_tab_index = Some(self.pane.tabs.len() - 1);
        proof { assert(tabs_view(self.pane.tabs@) =~= tabs.push(tab_view(self.pane.tabs@[n as int]))); }
    }
}

// ---------------------------------------------------------------------------
// Laws
// ---------------------------------------------------------------------------

proof fn lemma_tab_index_of(tabs: Seq<TabView>, p: Seq<char>, i: int)
    requires i >= 0,
    ensures
        -1 <= tab_index_of(tabs, p, i) < tabs.len(),
        tab_index_of(tabs, p, i) >= 0 ==> tabs[tab_index_of(tabs, p, i)].2 == p,
    decreases tabs.len() - i,
{
    if i < tabs.len() && tabs[i].2 != p {
        lemma_tab_index_of(tabs, p, i + 1);
    }
}

/// Law: focusing a managed panel shows it and gives it the focus; closing
/// the focused component right after hides it again and gives the focus
/// back to the editor.
pub proof fn law_focus_then_close_panel(v: DeskView, t: FocusTarget)
    requires spec_is_visibility_managed(t),
    ensures
        panel_visible(focus_panel_spec(v, t), t),
        focus_panel_spec(v, t).focused == t,
        focus_panel_spec(v, t).pending_focus == Some(t),
        !panel_visible(close_focused_spec(focus_panel_spec(v, t)), t),
        close_focused_spec(focus_panel_spec(v, t)).focused == FocusTarget::Editor,
        close_focused_spec(focus_panel_spec(v, t)).pending_focus == Some(FocusTarget::Editor),
{
}

/// Law: after closing the active tab the active index, if any, names a tab;
/// a valid active tab is removed and the other tabs keep their order.
pub proof fn law_close_tab_keeps_active_in_range(v: DeskView)
    ensures
        close_tab_spec(v).active matches Some(i) ==> i < close_tab_spec(v).tabs.len(),
        (v.active matches Some(i) && i < v.tabs.len()) ==> close_tab_spec(v).tabs == v.tabs.remove(v.active->0 as int),
{
}

/// Law: with the editor focused, closing the focused component closes the
/// active tab `i`: the other tabs stay in order, and the tab that took the
/// closed one's place (or, when the last tab was closed, the new last tab)
/// becomes active; closing the only tab leaves none active.
pub proof fn law_close_active_tab_activates_next(v: DeskView)
    requires
        v.focused == FocusTarget::Editor,
        v.active matches Some(i) && i < v.tabs.len(),
    ensures ({
        let r = close_focused_spec(v);
        let i = v.active->0 as int;
        let left = v.tabs.len() - 1;
        &&& r.tabs == v.tabs.remove(i)
        &&& r.tabs.len() == left
        &&& left == 0 ==> r.active is None
        &&& left > 0 ==> r.active == Some((if i < left { i } else { left - 1 }) as usize)
        &&& i + 1 < v.tabs.len() ==> r.tabs[r.active->0 as int] == v.tabs[i + 1]
        &&& (left > 0 && i + 1 == v.tabs.len()) ==> r.tabs[r.active->0 as int] == v.tabs[i - 1]
    }),
{
}

/// Law: after opening a file, the active tab shows that file with the given
/// lines; a file already open gets no second tab; a new tab gets a buffer
/// id larger than every other tab's.
pub proof fn law_open_file_activates_it(v: DeskView, p: Seq<char>, lines: Seq<Seq<char>>, ending: Seq<char>, cursor: Seq<char>)
    requires
        v.tabs.len() <= usize::MAX,
        tab_index_of(v.tabs, p, 0) >= 0 || (max_id(v.tabs) < u64::MAX && v.tabs.len() < usize::MAX),
    ensures ({
        let r = open_file_spec(v, p, lines, ending, cursor);
        &&& r.active matches Some(k) && k < r.tabs.len() && r.tabs[k as int].2 == p && r.tabs[k as int].3 == lines
        &&& tab_index_of(v.tabs, p, 0) >= 0 ==> r.tabs.len() == v.tabs.len()
        &&& tab_index_of(v.tabs, p, 0) < 0 ==> {
            &&& r.tabs.len() == v.tabs.len() + 1
            &&& forall|i: int| 0 <= i < v.tabs.len() ==> (#[trigger] r.tabs[i]).0 < r.tabs[v.tabs.len() as int].0
        }
    }),
{
    lemma_tab_index_of(v.tabs, p, 0);
    let r = open_file_spec(v, p, lines, ending, cursor);
    let k = tab_index_of(v.tabs, p, 0);
    if k < 0 {
        let n = v.tabs.len() as int;
        assert(r.tabs[n].0 == (max_id(v.tabs) + 1) as u64);
        assert forall|i: int| 0 <= i < v.tabs.len() implies (#[trigger] r.tabs[i]).0 < r.tabs[n].0 by {
            lemma_max_id(v.tabs, i);
            assert(r.tabs[i] == v.tabs[i]);
        }
    } else {
        assert(r.tabs[k] == (v.tabs[k].0, v.tabs[k].1, v.tabs[k].2, lines));
    }
}

} // verus!
