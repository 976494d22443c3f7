//! Command kinds: the stable, payload-free identity of each invocation, with
//! its metadata, whether it can be built without arguments, and its default
//! shortcuts. One table declares every kind; lookups and the default
//! shortcut bindings are projections of it.

use vstd::prelude::*;

use crate::focus::{spec_all_targets, FocusTarget};
use crate::input::{KeyCode, Keystroke};

use super::catalog::{
    ctrl_char, descriptor_for_id, descriptor_spec, meta_char, meta_char_spec, meta_shift_char,
    meta_shift_char_spec, plain, plain_spec, CommandDescriptor, CommandId,
};
use super::invocation::{
    CommandInvocation, EditorAction, EditorInvocation, FileTreeAction, OverlayTarget, TabAction,
    WorkspaceAction,
};

verus! {

/// The stable kind of a command invocation.
#[derive(Debug, Clone, Copy, PartialEq, Eq, Structural, Hash)]
pub enum CommandKind {
    EditorInsertText,
    EditorInsertNewline,
    EditorMoveLeft,
    EditorMoveRight,
    EditorMoveUp,
    EditorMoveDown,
    EditorMoveToStart,
    EditorMoveToEnd,
    EditorMovePageUp,
    EditorMovePageDown,
    EditorDeleteBackward,
    EditorDeleteForward,
    EditorDeleteWordBackward,
    EditorDeleteWordForward,
    EditorUndo,
    EditorRedo,
    EditorSelectAll,
    WorkspaceFocusPanel(FocusTarget),
    WorkspaceFocusOverlay(OverlayTarget),
    WorkspaceCloseFocused,
    WorkspaceOpenProjectPicker,
    WorkspaceOpenSettings,
    WorkspaceOpenCodeActions,
    WorkspaceStartDebugging,
    WorkspaceFileTreeSelectPrev,
    WorkspaceFileTreeSelectNext,
    WorkspaceFileTreeExpandOrDescend,
    WorkspaceFileTreeCollapseOrAscend,
    WorkspaceFileTreeActivateSelection,
    WorkspaceTabCloseActive,
    WorkspaceTabActivatePrev,
    WorkspaceTabActivateNext,
}

/// The stable string id of a command kind.
#[derive(Debug, Clone, Copy, PartialEq, Eq, Hash)]
pub struct CommandKindId(pub &'static str);

/// Descriptive metadata of a command kind.
#[derive(Debug, Clone, Copy, PartialEq, Eq, Hash)]
pub struct CommandMeta {
    /// Stable id.
    pub id: CommandKindId,
    /// Short title.
    pub title: &'static str,
    /// What the command does.
    pub description: &'static str,
}

/// Where a default shortcut applies.
#[derive(Debug, Clone, Copy, PartialEq, Eq, Structural, Hash)]
pub enum ShortcutScope {
    /// Everywhere.
    Global,
    /// Only while the given target has the focus.
    Focus(FocusTarget),
}

/// A default shortcut of a command kind.
#[derive(Debug, Clone, Copy, PartialEq, Eq, Structural)]
pub struct CommandShortcut {
    /// Scope.
    pub scope: ShortcutScope,
    /// The keystroke.
    pub keystroke: Keystroke,
    /// Priority (higher wins).
    pub priority: u8,
}

impl CommandShortcut {
    /// A shortcut with priority 0.
    pub fn new(scope: ShortcutScope, keystroke: Keystroke) -> (s: Self)
        ensures s == (CommandShortcut { scope, keystroke, priority: 0 }),
    {
        CommandShortcut { scope, keystroke, priority: 0 }
    }

    /// Sets the priority.
    pub fn with_priority(self, priority: u8) -> (s: Self)
        ensures s == (CommandShortcut { priority, ..self }),
    {
        CommandShortcut { priority, ..self }
    }
}

/// Whether an invocation of a kind can be built without arguments.
#[derive(Debug, Clone, Copy, PartialEq, Eq, Structural, Hash)]
pub enum Buildability {
    /// The invocation is fixed by the kind.
    Static,
    /// The invocation needs a payload (such as the text to insert).
    RequiresArgs,
}

/// The declaration of one command kind.
#[derive(Debug, PartialEq, Eq)]
pub struct CommandKindSpec {
    /// The kind.
    pub kind: CommandKind,
    /// Its metadata.
    pub meta: CommandMeta,
    /// Whether it can be built without arguments.
    pub buildability: Buildability,
    /// Its default shortcuts (possibly none).
    pub default_shortcuts: Vec<CommandShortcut>,
}

impl CommandKindSpec {
    /// A declaration.
    pub fn new(kind: CommandKind, id: &'static str, title: &'static str, description: &'static str,
        buildability: Buildability, default_shortcuts: Vec<CommandShortcut>) -> (s: Self)
        ensures
            s.kind == kind,
            s.meta == (CommandMeta { id: CommandKindId(id), title, description }),
            s.buildability == buildability,
            s.default_shortcuts@ == default_shortcuts@,
    {
        CommandKindSpec { kind, meta: CommandMeta { id: CommandKindId(id), title, description }, buildability, default_shortcuts }
    }
}

/// An invocation together with one of its default shortcuts.
#[derive(Debug, PartialEq, Eq)]
pub struct DefaultShortcutBinding {
    /// The invocation.
    pub command: CommandInvocation,
    /// The shortcut.
    pub shortcut: CommandShortcut,
}

/// Every declared kind, in declaration order: editor kinds, focusing each
/// target, closing the focused component, the settings overlay, then the
/// workbench actions, the file tree and the tabs.
pub open spec fn spec_kinds() -> Seq<CommandKind> {
    seq![CommandKind::EditorInsertText, CommandKind::EditorInsertNewline, CommandKind::EditorMoveLeft, CommandKind::EditorMoveRight, CommandKind::EditorMoveUp, CommandKind::EditorMoveDown, CommandKind::EditorMoveToStart, CommandKind::EditorMoveToEnd, CommandKind::EditorMovePageUp, CommandKind::EditorMovePageDown, CommandKind::EditorDeleteBackward, CommandKind::EditorDeleteForward, CommandKind::EditorDeleteWordBackward, CommandKind::EditorDeleteWordForward, CommandKind::EditorUndo, CommandKind::EditorRedo, CommandKind::EditorSelectAll]
        + spec_all_targets().map_values(|t: FocusTarget| CommandKind::WorkspaceFocusPanel(t))
        + seq![CommandKind::WorkspaceCloseFocused, CommandKind::WorkspaceFocusOverlay(OverlayTarget::Settings), CommandKind::WorkspaceOpenSettings, CommandKind::WorkspaceOpenProjectPicker, CommandKind::WorkspaceOpenCodeActions, CommandKind::WorkspaceStartDebugging, CommandKind::WorkspaceFileTreeSelectPrev, CommandKind::WorkspaceFileTreeSelectNext, CommandKind::WorkspaceFileTreeExpandOrDescend, CommandKind::WorkspaceFileTreeCollapseOrAscend, CommandKind::WorkspaceFileTreeActivateSelection, CommandKind::WorkspaceTabCloseActive, CommandKind::WorkspaceTabActivatePrev, CommandKind::WorkspaceTabActivateNext]
}

/// Whether a kind is declared (focusing the settings target is not).
pub open spec fn kind_declared(k: CommandKind) -> bool {
    k != CommandKind::WorkspaceFocusPanel(FocusTarget::Setting)
}

/// The catalog id whose description a kind shares, where there is one.
pub open spec fn kind_catalog_id(k: CommandKind) -> Option<CommandId> {
    match k {
        CommandKind::EditorInsertText => Some(CommandId::EditorInsertText),
        CommandKind::EditorInsertNewline => Some(CommandId::EditorInsertNewline),
        CommandKind::EditorMoveLeft => Some(CommandId::EditorMoveLeft),
        CommandKind::EditorMoveRight => Some(CommandId::EditorMoveRight),
        CommandKind::EditorMoveUp => Some(CommandId::EditorMoveUp),
        CommandKind::EditorMoveDown => Some(CommandId::EditorMoveDown),
        CommandKind::EditorMoveToStart => Some(CommandId::EditorMoveToStart),
        CommandKind::EditorMoveToEnd => Some(CommandId::EditorMoveToEnd),
        CommandKind::EditorMovePageUp => Some(CommandId::EditorMovePageUp),
        CommandKind::EditorMovePageDown => Some(CommandId::EditorMovePageDown),
        CommandKind::EditorDeleteBackward => Some(CommandId::EditorDeleteBackward),
        CommandKind::EditorDeleteForward => Some(CommandId::EditorDeleteForward),
        CommandKind::EditorDeleteWordBackward => Some(CommandId::EditorDeleteWordBackward),
        CommandKind::EditorDeleteWordForward => Some(CommandId::EditorDeleteWordForward),
        CommandKind::EditorUndo => Some(CommandId::EditorUndo),
        CommandKind::EditorRedo => Some(CommandId::EditorRedo),
        CommandKind::EditorSelectAll => Some(CommandId::EditorSelectAll),
        CommandKind::WorkspaceFocusPanel(t) => Some(CommandId::WorkspaceFocusPanel(t)),
        CommandKind::WorkspaceOpenProjectPicker => Some(CommandId::WorkspaceOpenProjectPicker),
        CommandKind::WorkspaceOpenSettings => Some(CommandId::WorkspaceOpenSettings),
        CommandKind::WorkspaceOpenCodeActions => Some(CommandId::WorkspaceOpenCodeActions),
        CommandKind::WorkspaceStartDebugging => Some(CommandId::WorkspaceStartDebugging),
        CommandKind::WorkspaceFileTreeSelectPrev => Some(CommandId::WorkspaceFileTreeSelectPrev),
        CommandKind::WorkspaceFileTreeSelectNext => Some(CommandId::WorkspaceFileTreeSelectNext),
        CommandKind::WorkspaceFileTreeExpandOrDescend => Some(CommandId::WorkspaceFileTreeExpandOrDescend),
        CommandKind::WorkspaceFileTreeCollapseOrAscend => Some(CommandId::WorkspaceFileTreeCollapseOrAscend),
        CommandKind::WorkspaceFileTreeActivateSelection => Some(CommandId::WorkspaceFileTreeActivateSelection),
        CommandKind::WorkspaceTabCloseActive => Some(CommandId::WorkspaceTabCloseActive),
        CommandKind::WorkspaceTabActivatePrev => Some(CommandId::WorkspaceTabActivatePrev),
        CommandKind::WorkspaceTabActivateNext => Some(CommandId::WorkspaceTabActivateNext),
        _ => None,
    }
}

/// The metadata of a described command id.
pub open spec fn meta_of(d: CommandDescriptor) -> CommandMeta {
    CommandMeta { id: CommandKindId(d.id), title: d.title, description: d.description }
}

/// The title and description that the kind table gives to focusing a
/// panel, where it words them itself rather than taking the command
/// catalog's.
pub open spec fn panel_text_spec(t: FocusTarget) -> Option<(&'static str, &'static str)> {
    match t {
        FocusTarget::Palette => Some(("聚焦命令调色板", "显示并聚焦命令调色板")),
        FocusTarget::FileTreePanel => Some(("Focus File Tree Panel", "显示并聚焦文件树面板")),
        FocusTarget::GitPanel => Some(("聚焦 Git 面板", "显示并聚焦 Git 面板")),
        FocusTarget::OutlinePanel => Some(("聚焦大纲面板", "显示并聚焦大纲面板")),
        FocusTarget::ProjectSearchPanel => Some(("聚焦项目搜索面板", "显示并聚焦项目搜索面板")),
        FocusTarget::LanguageServersPanel => Some(("聚焦语言服务器面板", "显示并聚焦语言服务器面板")),
        FocusTarget::TerminalPanel => Some(("聚焦终端面板", "显示并聚焦终端面板")),
        FocusTarget::DebugPanel => Some(("聚焦调试面板", "显示并聚焦调试面板")),
        FocusTarget::NotificationPanel => Some(("聚焦通知面板", "显示并聚焦通知面板")),
        _ => None,
    }
}

/// The kind table's own title and description for focusing a panel.
fn panel_text(t: FocusTarget) -> (r: Option<(&'static str, &'static str)>)
    ensures r == panel_text_spec(t),
{
    match t {
        FocusTarget::Palette => Some(("聚焦命令调色板", "显示并聚焦命令调色板")),
        FocusTarget::FileTreePanel => Some(("Focus File Tree Panel", "显示并聚焦文件树面板")),
        FocusTarget::GitPanel => Some(("聚焦 Git 面板", "显示并聚焦 Git 面板")),
        FocusTarget::OutlinePanel => Some(("聚焦大纲面板", "显示并聚焦大纲面板")),
        FocusTarget::ProjectSearchPanel => Some(("聚焦项目搜索面板", "显示并聚焦项目搜索面板")),
        FocusTarget::LanguageServersPanel => Some(("聚焦语言服务器面板", "显示并聚焦语言服务器面板")),
        FocusTarget::TerminalPanel => Some(("聚焦终端面板", "显示并聚焦终端面板")),
        FocusTarget::DebugPanel => Some(("聚焦调试面板", "显示并聚焦调试面板")),
        FocusTarget::NotificationPanel => Some(("聚焦通知面板", "显示并聚焦通知面板")),
        _ => None,
    }
}

/// The metadata of each kind: the command catalog's description of the same
/// command, except where the kind table words it itself (focusing most
/// panels, closing the focused component) or the catalog has no such
/// command (the settings overlay).
pub open spec fn kind_meta_spec(k: CommandKind) -> CommandMeta {
    match kind_catalog_id(k) {
        Some(id) => match k {
            CommandKind::WorkspaceFocusPanel(t) => match panel_text_spec(t) {
                Some(text) => CommandMeta { id: CommandKindId(descriptor_spec(id).id), title: text.0, description: text.1 },
                None => meta_of(descriptor_spec(id)),
            },
            _ => meta_of(descriptor_spec(id)),
        },
        None => if k == CommandKind::WorkspaceCloseFocused {
            CommandMeta {
                id: CommandKindId("workspace.close_focused"),
                title: "关闭或隐藏",
                description: "关闭或隐藏当前聚焦组件",
            }
        } else {
            CommandMeta {
                id: CommandKindId("workspace.focus_overlay.settings"),
                title: "Focus Settings",
                description: "Show the settings overlay and move focus to it.",
            }
        },
    }
}

/// Whether each kind can be built without arguments.
pub open spec fn buildability_spec(k: CommandKind) -> Buildability {
    if k == CommandKind::EditorInsertText { Buildability::RequiresArgs } else { Buildability::Static }
}

/// A global shortcut.
pub open spec fn global(keystroke: Keystroke, priority: u8) -> Seq<CommandShortcut> {
    seq![CommandShortcut { scope: ShortcutScope::Global, keystroke, priority }]
}

/// A shortcut scoped to the file tree panel.
pub open spec fn in_file_tree(key: KeyCode) -> Seq<CommandShortcut> {
    seq![CommandShortcut { scope: ShortcutScope::Focus(FocusTarget::FileTreePanel), keystroke: plain_spec(key), priority: 110 }]
}

/// The default shortcuts of each kind.
pub open spec fn kind_shortcuts_spec(k: CommandKind) -> Seq<CommandShortcut> {
    match k {
        CommandKind::WorkspaceFocusPanel(FocusTarget::FileTreePanel) => global(meta_shift_char_spec('e'), 100),
        CommandKind::WorkspaceFocusPanel(FocusTarget::GitPanel) => global(meta_shift_char_spec('g'), 80),
        CommandKind::WorkspaceFocusPanel(FocusTarget::OutlinePanel) => global(meta_shift_char_spec('o'), 80),
        CommandKind::WorkspaceFocusPanel(FocusTarget::ProjectSearchPanel) => global(meta_shift_char_spec('f'), 80),
        CommandKind::WorkspaceFocusPanel(FocusTarget::LanguageServersPanel) => global(meta_shift_char_spec('l'), 80),
        CommandKind::WorkspaceFocusPanel(FocusTarget::TerminalPanel) => global(meta_char_spec('.'), 80),
        CommandKind::WorkspaceFocusPanel(FocusTarget::DebugPanel) => global(meta_shift_char_spec('d'), 80),
        CommandKind::WorkspaceFocusPanel(FocusTarget::NotificationPanel) => global(meta_shift_char_spec('n'), 80),
        CommandKind::WorkspaceCloseFocused => global(meta_char_spec('w'), 120),
        CommandKind::WorkspaceFocusOverlay(OverlayTarget::Settings) => global(meta_char_spec(','), 100),
        CommandKind::WorkspaceOpenSettings => global(meta_char_spec(','), 80),
        CommandKind::WorkspaceOpenProjectPicker => global(meta_shift_char_spec('p'), 80),
        CommandKind::WorkspaceStartDebugging => global(plain_spec(KeyCode::F(5)), 80),
        CommandKind::WorkspaceFileTreeSelectPrev => in_file_tree(KeyCode::Up),
        CommandKind::WorkspaceFileTreeSelectNext => in_file_tree(KeyCode::Down),
        CommandKind::WorkspaceFileTreeExpandOrDescend => in_file_tree(KeyCode::Right),
        CommandKind::WorkspaceFileTreeCollapseOrAscend => in_file_tree(KeyCode::Left),
        CommandKind::WorkspaceFileTreeActivateSelection => in_file_tree(KeyCode::Enter),
        _ => seq![],
    }
}

/// The invocation a kind builds without arguments.
pub open spec fn kind_invocation(k: CommandKind) -> Option<CommandInvocation> {
    match k {
        CommandKind::EditorInsertText => None,
        CommandKind::EditorInsertNewline => Some(CommandInvocation::Editor(EditorInvocation::Action(EditorAction::InsertNewline))),
        CommandKind::EditorMoveLeft => Some(CommandInvocation::Editor(EditorInvocation::Action(EditorAction::MoveLeft))),
        CommandKind::EditorMoveRight => Some(CommandInvocation::Editor(EditorInvocation::Action(EditorAction::MoveRight))),
        CommandKind::EditorMoveUp => Some(CommandInvocation::Editor(EditorInvocation::Action(EditorAction::MoveUp))),
        CommandKind::EditorMoveDown => Some(CommandInvocation::Editor(EditorInvocation::Action(EditorAction::MoveDown))),
        CommandKind::EditorMoveToStart => Some(CommandInvocation::Editor(EditorInvocation::Action(EditorAction::MoveToStart))),
        CommandKind::EditorMoveToEnd => Some(CommandInvocation::Editor(EditorInvocation::Action(EditorAction::MoveToEnd))),
        CommandKind::EditorMovePageUp => Some(CommandInvocation::Editor(EditorInvocation::Action(EditorAction::MovePageUp))),
        CommandKind::EditorMovePageDown => Some(CommandInvocation::Editor(EditorInvocation::Action(EditorAction::MovePageDown))),
        CommandKind::EditorDeleteBackward => Some(CommandInvocation::Editor(EditorInvocation::Action(EditorAction::DeleteBackward))),
        CommandKind::EditorDeleteForward => Some(CommandInvocation::Editor(EditorInvocation::Action(EditorAction::DeleteForward))),
        CommandKind::EditorDeleteWordBackward => Some(CommandInvocation::Editor(EditorInvocation::Action(EditorAction::DeleteWordBackward))),
        CommandKind::EditorDeleteWordForward => Some(CommandInvocation::Editor(EditorInvocation::Action(EditorAction::DeleteWordForward))),
        CommandKind::EditorUndo => Some(CommandInvocation::Editor(EditorInvocation::Action(EditorAction::Undo))),
        CommandKind::EditorRedo => Some(CommandInvocation::Editor(EditorInvocation::Action(EditorAction::Redo))),
        CommandKind::EditorSelectAll => Some(CommandInvocation::Editor(EditorInvocation::Action(EditorAction::SelectAll))),
        CommandKind::WorkspaceFocusPanel(t) => Some(CommandInvocation::Workspace(WorkspaceAction::FocusPanel(t))),
        CommandKind::WorkspaceFocusOverlay(o) => Some(CommandInvocation::Workspace(WorkspaceAction::FocusOverlay(o))),
        CommandKind::WorkspaceCloseFocused => Some(CommandInvocation::Workspace(WorkspaceAction::CloseFocused)),
        CommandKind::WorkspaceOpenProjectPicker => Some(CommandInvocation::Workspace(WorkspaceAction::OpenProjectPicker)),
        CommandKind::WorkspaceOpenSettings => Some(CommandInvocation::Workspace(WorkspaceAction::OpenSettings)),
        CommandKind::WorkspaceOpenCodeActions => Some(CommandInvocation::Workspace(WorkspaceAction::OpenCodeActions)),
        CommandKind::WorkspaceStartDebugging => Some(CommandInvocation::Workspace(WorkspaceAction::StartDebugging)),
        CommandKind::WorkspaceFileTreeSelectPrev => Some(CommandInvocation::Workspace(WorkspaceAction::FileTree(FileTreeAction::SelectPrev))),
        CommandKind::WorkspaceFileTreeSelectNext => Some(CommandInvocation::Workspace(WorkspaceAction::FileTree(FileTreeAction::SelectNext))),
        CommandKind::WorkspaceFileTreeExpandOrDescend => Some(CommandInvocation::Workspace(WorkspaceAction::FileTree(FileTreeAction::ExpandOrDescend))),
        CommandKind::WorkspaceFileTreeCollapseOrAscend => Some(CommandInvocation::Workspace(WorkspaceAction::FileTree(FileTreeAction::CollapseOrAscend))),
        CommandKind::WorkspaceFileTreeActivateSelection => Some(CommandInvocation::Workspace(WorkspaceAction::FileTree(FileTreeAction::ActivateSelection))),
        CommandKind::WorkspaceTabCloseActive => Some(CommandInvocation::Workspace(WorkspaceAction::Tab(TabAction::CloseActiveTab))),
        CommandKind::WorkspaceTabActivatePrev => Some(CommandInvocation::Workspace(WorkspaceAction::Tab(TabAction::ActivatePrevTab))),
        CommandKind::WorkspaceTabActivateNext => Some(CommandInvocation::Workspace(WorkspaceAction::Tab(TabAction::ActivateNextTab))),
    }
}

/// The declared kind of an invocation; `None` when no kind declares it.
pub open spec fn kind_of(c: CommandInvocation) -> Option<CommandKind> {
    match c {
        CommandInvocation::Editor(EditorInvocation::InsertText { .. }) => Some(CommandKind::EditorInsertText),
        CommandInvocation::Editor(EditorInvocation::Action(EditorAction::InsertNewline)) => Some(CommandKind::EditorInsertNewline),
        CommandInvocation::Editor(EditorInvocation::Action(EditorAction::MoveLeft)) => Some(CommandKind::EditorMoveLeft),
        CommandInvocation::Editor(EditorInvocation::Action(EditorAction::MoveRight)) => Some(CommandKind::EditorMoveRight),
        CommandInvocation::Editor(EditorInvocation::Action(EditorAction::MoveUp)) => Some(CommandKind::EditorMoveUp),
        CommandInvocation::Editor(EditorInvocation::Action(EditorAction::MoveDown)) => Some(CommandKind::EditorMoveDown),
        CommandInvocation::Editor(EditorInvocation::Action(EditorAction::MoveToStart)) => Some(CommandKind::EditorMoveToStart),
        CommandInvocation::Editor(EditorInvocation::Action(EditorAction::MoveToEnd)) => Some(CommandKind::EditorMoveToEnd),
        CommandInvocation::Editor(EditorInvocation::Action(EditorAction::MovePageUp)) => Some(CommandKind::EditorMovePageUp),
        CommandInvocation::Editor(EditorInvocation::Action(EditorAction::MovePageDown)) => Some(CommandKind::EditorMovePageDown),
        CommandInvocation::Editor(EditorInvocation::Action(EditorAction::DeleteBackward)) => Some(CommandKind::EditorDeleteBackward),
        CommandInvocation::Editor(EditorInvocation::Action(EditorAction::DeleteForward)) => Some(CommandKind::EditorDeleteForward),
        CommandInvocation::Editor(EditorInvocation::Action(EditorAction::DeleteWordBackward)) => Some(CommandKind::EditorDeleteWordBackward),
        CommandInvocation::Editor(EditorInvocation::Action(EditorAction::DeleteWordForward)) => Some(CommandKind::EditorDeleteWordForward),
        CommandInvocation::Editor(EditorInvocation::Action(EditorAction::Undo)) => Some(CommandKind::EditorUndo),
        CommandInvocation::Editor(EditorInvocation::Action(EditorAction::Redo)) => Some(CommandKind::EditorRedo),
        CommandInvocation::Editor(EditorInvocation::Action(EditorAction::SelectAll)) => Some(CommandKind::EditorSelectAll),
        CommandInvocation::Editor(_) => None,
        CommandInvocation::Workspace(WorkspaceAction::FocusPanel(FocusTarget::Setting)) => None,
        CommandInvocation::Workspace(WorkspaceAction::FocusPanel(t)) => Some(CommandKind::WorkspaceFocusPanel(t)),
        CommandInvocation::Workspace(WorkspaceAction::FocusOverlay(o)) => Some(CommandKind::WorkspaceFocusOverlay(o)),
        CommandInvocation::Workspace(WorkspaceAction::CloseFocused) => Some(CommandKind::WorkspaceCloseFocused),
        CommandInvocation::Workspace(WorkspaceAction::OpenProjectPicker) => Some(CommandKind::WorkspaceOpenProjectPicker),
        CommandInvocation::Workspace(WorkspaceAction::OpenSettings) => Some(CommandKind::WorkspaceOpenSettings),
        CommandInvocation::Workspace(WorkspaceAction::OpenCodeActions) => Some(CommandKind::WorkspaceOpenCodeActions),
        CommandInvocation::Workspace(WorkspaceAction::StartDebugging) => Some(CommandKind::WorkspaceStartDebugging),
        CommandInvocation::Workspace(WorkspaceAction::FileTree(FileTreeAction::SelectPrev)) => Some(CommandKind::WorkspaceFileTreeSelectPrev),
        CommandInvocation::Workspace(WorkspaceAction::FileTree(FileTreeAction::SelectNext)) => Some(CommandKind::WorkspaceFileTreeSelectNext),
        CommandInvocation::Workspace(WorkspaceAction::FileTree(FileTreeAction::ExpandOrDescend)) => Some(CommandKind::WorkspaceFileTreeExpandOrDescend),
        CommandInvocation::Workspace(WorkspaceAction::FileTree(FileTreeAction::CollapseOrAscend)) => Some(CommandKind::WorkspaceFileTreeCollapseOrAscend),
        CommandInvocation::Workspace(WorkspaceAction::FileTree(FileTreeAction::ActivateSelection)) => Some(CommandKind::WorkspaceFileTreeActivateSelection),
        CommandInvocation::Workspace(WorkspaceAction::Tab(TabAction::CloseActiveTab)) => Some(CommandKind::WorkspaceTabCloseActive),
        CommandInvocation::Workspace(WorkspaceAction::Tab(TabAction::ActivatePrevTab)) => Some(CommandKind::WorkspaceTabActivatePrev),
        CommandInvocation::Workspace(WorkspaceAction::Tab(TabAction::ActivateNextTab)) => Some(CommandKind::WorkspaceTabActivateNext),
    }
}

/// Whether a declaration is the one the table gives for `k`.
pub open spec fn declares(s: CommandKindSpec, k: CommandKind) -> bool {
    &&& s.kind == k
    &&& s.meta == kind_meta_spec(k)
    &&& s.buildability == buildability_spec(k)
    &&& s.default_shortcuts@ == kind_shortcuts_spec(k)
}

fn catalog_id_of(k: CommandKind) -> (r: Option<CommandId>)
    ensures r == kind_catalog_id(k),
{
    match k {
        CommandKind::EditorInsertText => Some(CommandId::EditorInsertText),
        CommandKind::EditorInsertNewline => Some(CommandId::EditorInsertNewline),
        CommandKind::EditorMoveLeft => Some(CommandId::EditorMoveLeft),
        CommandKind::EditorMoveRight => Some(CommandId::EditorMoveRight),
        CommandKind::EditorMoveUp => Some(CommandId::EditorMoveUp),
        CommandKind::EditorMoveDown => Some(CommandId::EditorMoveDown),
        CommandKind::EditorMoveToStart => Some(CommandId::EditorMoveToStart),
        CommandKind::EditorMoveToEnd => Some(CommandId::EditorMoveToEnd),
        CommandKind::EditorMovePageUp => Some(CommandId::EditorMovePageUp),
        CommandKind::EditorMovePageDown => Some(CommandId::EditorMovePageDown),
        CommandKind::EditorDeleteBackward => Some(CommandId::EditorDeleteBackward),
        CommandKind::EditorDeleteForward => Some(CommandId::EditorDeleteForward),
        CommandKind::EditorDeleteWordBackward => Some(CommandId::EditorDeleteWordBackward),
        CommandKind::EditorDeleteWordForward => Some(CommandId::EditorDeleteWordForward),
        CommandKind::EditorUndo => Some(CommandId::EditorUndo),
        CommandKind::EditorRedo => Some(CommandId::EditorRedo),
        CommandKind::EditorSelectAll => Some(CommandId::EditorSelectAll),
        CommandKind::WorkspaceFocusPanel(t) => Some(CommandId::WorkspaceFocusPanel(t)),
        CommandKind::WorkspaceOpenProjectPicker => Some(CommandId::WorkspaceOpenProjectPicker),
        CommandKind::WorkspaceOpenSettings => Some(CommandId::WorkspaceOpenSettings),
        CommandKind::WorkspaceOpenCodeActions => Some(CommandId::WorkspaceOpenCodeActions),
        CommandKind::WorkspaceStartDebugging => Some(CommandId::WorkspaceStartDebugging),
        CommandKind::WorkspaceFileTreeSelectPrev => Some(CommandId::WorkspaceFileTreeSelectPrev),
        CommandKind::WorkspaceFileTreeSelectNext => Some(CommandId::WorkspaceFileTreeSelectNext),
        CommandKind::WorkspaceFileTreeExpandOrDescend => Some(CommandId::WorkspaceFileTreeExpandOrDescend),
        CommandKind::WorkspaceFileTreeCollapseOrAscend => Some(CommandId::WorkspaceFileTreeCollapseOrAscend),
        CommandKind::WorkspaceFileTreeActivateSelection => Some(CommandId::WorkspaceFileTreeActivateSelection),
        CommandKind::WorkspaceTabCloseActive => Some(CommandId::WorkspaceTabCloseActive),
        CommandKind::WorkspaceTabActivatePrev => Some(CommandId::WorkspaceTabActivatePrev),
        CommandKind::WorkspaceTabActivateNext => Some(CommandId::WorkspaceTabActivateNext),
        _ => None,
    }
}

fn global_shortcut(keystroke: Keystroke, priority: u8) -> (v: Vec<CommandShortcut>)
    ensures v@ == global(keystroke, priority),
{
    vec![CommandShortcut::new(ShortcutScope::Global, keystroke).with_priority(priority)]
}

fn file_tree_shortcut(key: KeyCode) -> (v: Vec<CommandShortcut>)
    ensures v@ == in_file_tree(key),
{
    vec![CommandShortcut::new(ShortcutScope::Focus(FocusTarget::FileTreePanel), plain(key)).with_priority(110)]
}

fn kind_shortcuts(k: CommandKind) -> (v: Vec<CommandShortcut>)
    ensures v@ == kind_shortcuts_spec(k),
{
    match k {
        CommandKind::WorkspaceFocusPanel(FocusTarget::FileTreePanel) => global_shortcut(meta_shift_char('e'), 100),
        CommandKind::WorkspaceFocusPanel(FocusTarget::GitPanel) => global_shortcut(meta_shift_char('g'), 80),
        CommandKind::WorkspaceFocusPanel(FocusTarget::OutlinePanel) => global_shortcut(meta_shift_char('o'), 80),
        CommandKind::WorkspaceFocusPanel(FocusTarget::ProjectSearchPanel) => global_shortcut(meta_shift_char('f'), 80),
        CommandKind::WorkspaceFocusPanel(FocusTarget::LanguageServersPanel) => global_shortcut(meta_shift_char('l'), 80),
        CommandKind::WorkspaceFocusPanel(FocusTarget::TerminalPanel) => global_shortcut(meta_char('.'), 80),
        CommandKind::WorkspaceFocusPanel(FocusTarget::DebugPanel) => global_shortcut(meta_shift_char('d'), 80),
        CommandKind::WorkspaceFocusPanel(FocusTarget::NotificationPanel) => global_shortcut(meta_shift_char('n'), 80),
        CommandKind::WorkspaceCloseFocused => global_shortcut(meta_char('w'), 120),
        CommandKind::WorkspaceFocusOverlay(OverlayTarget::Settings) => global_shortcut(meta_char(','), 100),
        CommandKind::WorkspaceOpenSettings => global_shortcut(meta_char(','), 80),
        CommandKind::WorkspaceOpenProjectPicker => global_shortcut(meta_shift_char('p'), 80),
        CommandKind::WorkspaceStartDebugging => global_shortcut(plain(KeyCode::F(5)), 80),
        CommandKind::WorkspaceFileTreeSelectPrev => file_tree_shortcut(KeyCode::Up),
        CommandKind::WorkspaceFileTreeSelectNext => file_tree_shortcut(KeyCode::Down),
        CommandKind::WorkspaceFileTreeExpandOrDescend => file_tree_shortcut(KeyCode::Right),
        CommandKind::WorkspaceFileTreeCollapseOrAscend => file_tree_shortcut(KeyCode::Left),
        CommandKind::WorkspaceFileTreeActivateSelection => file_tree_shortcut(KeyCode::Enter),
        _ => Vec::new(),
    }
}

/// The declaration the table gives for `k`.
fn kind_spec(k: CommandKind) -> (s: CommandKindSpec)
    ensures declares(s, k),
{
    let buildability = if k == CommandKind::EditorInsertText { Buildability::RequiresArgs } else { Buildability::Static };
    match catalog_id_of(k) {
        Some(id) => {
            let d = descriptor_for_id(id);
            let text = match k {
                CommandKind::WorkspaceFocusPanel(t) => panel_text(t),
                _ => None,
            };
            match text {
                Some((title, description)) => CommandKindSpec::new(k, d.id, title, description, buildability, kind_shortcuts(k)),
                None => CommandKindSpec::new(k, d.id, d.title, d.description, buildability, kind_shortcuts(k)),
            }
        },
        None => if k == CommandKind::WorkspaceCloseFocused {
            CommandKindSpec::new(k, "workspace.close_focused", "关闭或隐藏",
                "关闭或隐藏当前聚焦组件", buildability, kind_shortcuts(k))
        } else {
            CommandKindSpec::new(k, "workspace.focus_overlay.settings", "Focus Settings",
                "Show the settings overlay and move focus to it.", buildability, kind_shortcuts(k))
        },
    }
}

/// Every declared kind, in declaration order.
fn all_kinds() -> (v: Vec<CommandKind>)
    ensures v@ == spec_kinds(),
{
    let mut kinds: Vec<CommandKind> = vec![CommandKind::EditorInsertText, CommandKind::EditorInsertNewline, CommandKind::EditorMoveLeft, CommandKind::EditorMoveRight, CommandKind::EditorMoveUp, CommandKind::EditorMoveDown, CommandKind::EditorMoveToStart, CommandKind::EditorMoveToEnd, CommandKind::EditorMovePageUp, CommandKind::EditorMovePageDown, CommandKind::EditorDeleteBackward, CommandKind::EditorDeleteForward, CommandKind::EditorDeleteWordBackward, CommandKind::EditorDeleteWordForward, CommandKind::EditorUndo, CommandKind::EditorRedo, CommandKind::EditorSelectAll];
    let ghost head = kinds@;
    let targets = FocusTarget::all();
    let mut i: usize = 0;
    while i < targets.len()
        invariant
            targets@ == spec_all_targets(),
            i <= targets@.len(),
            kinds@ == head + targets@.take(i as int).map_values(|t: FocusTarget| CommandKind::WorkspaceFocusPanel(t)),
        decreases targets@.len() - i,
    {
        kinds.push(CommandKind::WorkspaceFocusPanel(targets[i]));
        proof {
            assert(targets@.take(i + 1).map_values(|t: FocusTarget| CommandKind::WorkspaceFocusPanel(t))
                =~= targets@.take(i as int).map_values(|t: FocusTarget| CommandKind::WorkspaceFocusPanel(t))
                    .push(CommandKind::WorkspaceFocusPanel(targets@[i as int])));
        }
        i = i + 1;
    }
    proof { assert(targets@.take(targets@.len() as int) =~= targets@); }
    let tail: Vec<CommandKind> = vec![CommandKind::WorkspaceCloseFocused, CommandKind::WorkspaceFocusOverlay(OverlayTarget::Settings), CommandKind::WorkspaceOpenSettings, CommandKind::WorkspaceOpenProjectPicker, CommandKind::WorkspaceOpenCodeActions, CommandKind::WorkspaceStartDebugging, CommandKind::WorkspaceFileTreeSelectPrev, CommandKind::WorkspaceFileTreeSelectNext, CommandKind::WorkspaceFileTreeExpandOrDescend, CommandKind::WorkspaceFileTreeCollapseOrAscend, CommandKind::WorkspaceFileTreeActivateSelection, CommandKind::WorkspaceTabCloseActive, CommandKind::WorkspaceTabActivatePrev, CommandKind::WorkspaceTabActivateNext];
    let ghost mid = kinds@;
    let mut j: usize = 0;
    while j < tail.len()
        invariant
            j <= tail@.len(),
            kinds@ == mid + tail@.take(j as int),
        decreases tail@.len() - j,
    {
        kinds.push(tail[j]);
        proof { assert(tail@.take(j + 1) =~= tail@.take(j as int).push(tail@[j as int])); }
        j = j + 1;
    }
    proof {
        assert(tail@.take(tail@.len() as int) =~= tail@);
        assert(kinds@ =~= spec_kinds());
    }
    kinds
}

/// Every declaration, in declaration order.
pub fn command_kind_specs() -> (v: Vec<CommandKindSpec>)
    ensures
        v@.len() == spec_kinds().len(),
        forall|i: int| 0 <= i < v@.len() ==> declares(#[trigger] v@[i], spec_kinds()[i]),
{
    let kinds = all_kinds();
    let mut specs: Vec<CommandKindSpec> = Vec::new();
    let mut i: usize = 0;
    while i < kinds.len()
        invariant
            kinds@ == spec_kinds(),
            i <= kinds@.len(),
            specs@.len() == i,
            forall|k: int| 0 <= k < i ==> declares(#[trigger] specs@[k], kinds@[k]),
        decreases kinds@.len() - i,
    {
        specs.push(kind_spec(kinds[i]));
        i = i + 1;
    }
    specs
}

/// The declaration of a kind; `None` for a kind that is not declared.
pub fn command_kind_spec_by_kind(kind: CommandKind) -> (r: Option<CommandKindSpec>)
    ensures
        r is Some <==> kind_declared(kind),
        r matches Some(s) ==> declares(s, kind),
{
    if kind == CommandKind::WorkspaceFocusPanel(FocusTarget::Setting) {
        None
    } else {
        Some(kind_spec(kind))
    }
}

/// Whether two strings hold the same characters.
fn same_str(a: &str, b: &str) -> (r: bool)
    ensures r == (a@ == b@),
{
    a.to_owned() == b.to_owned()
}

/// The index of the first declared kind whose id reads `id`, scanning from
/// `i`; -1 when there is none.
pub open spec fn first_with_id(id: Seq<char>, i: int) -> int
    decreases spec_kinds().len() - i,
{
    if i < 0 || i >= spec_kinds().len() {
        -1
    } else if kind_meta_spec(spec_kinds()[i]).id.0@ == id {
        i
    } else {
        first_with_id(id, i + 1)
    }
}

/// The first declaration whose id reads `id`; `None` when there is none.
pub fn command_kind_spec_by_id(id: CommandKindId) -> (r: Option<CommandKindSpec>)
    ensures
        r is Some <==> first_with_id(id.0@, 0) >= 0,
        r matches Some(s) ==> declares(s, spec_kinds()[first_with_id(id.0@, 0)]),
{
    let kinds = all_kinds();
    let mut i: usize = 0;
    while i < kinds.len()
        invariant
            kinds@ == spec_kinds(),
            i <= kinds@.len(),
            first_with_id(id.0@, 0) == first_with_id(id.0@, i as int),
        decreases kinds@.len() - i,
    {
        let spec = kind_spec(kinds[i]);
        if same_str(spec.meta.id.0, id.0) {
            return Some(spec);
        }
        i = i + 1;
    }
    None
}

fn kind_of_exec(command: &CommandInvocation) -> (r: Option<CommandKind>)
    ensures r == kind_of(*command),
{
    match command {
        CommandInvocation::Editor(EditorInvocation::InsertText { .. }) => Some(CommandKind::EditorInsertText),
        CommandInvocation::Editor(EditorInvocation::Action(EditorAction::InsertNewline)) => Some(CommandKind::EditorInsertNewline),
        CommandInvocation::Editor(EditorInvocation::Action(EditorAction::MoveLeft)) => Some(CommandKind::EditorMoveLeft),
        CommandInvocation::Editor(EditorInvocation::Action(EditorAction::MoveRight)) => Some(CommandKind::EditorMoveRight),
        CommandInvocation::Editor(EditorInvocation::Action(EditorAction::MoveUp)) => Some(CommandKind::EditorMoveUp),
        CommandInvocation::Editor(EditorInvocation::Action(EditorAction::MoveDown)) => Some(CommandKind::EditorMoveDown),
        CommandInvocation::Editor(EditorInvocation::Action(EditorAction::MoveToStart)) => Some(CommandKind::EditorMoveToStart),
        CommandInvocation::Editor(EditorInvocation::Action(EditorAction::MoveToEnd)) => Some(CommandKind::EditorMoveToEnd),
        CommandInvocation::Editor(EditorInvocation::Action(EditorAction::MovePageUp)) => Some(CommandKind::EditorMovePageUp),
        CommandInvocation::Editor(EditorInvocation::Action(EditorAction::MovePageDown)) => Some(CommandKind::EditorMovePageDown),
        CommandInvocation::Editor(EditorInvocation::Action(EditorAction::DeleteBackward)) => Some(CommandKind::EditorDeleteBackward),
        CommandInvocation::Editor(EditorInvocation::Action(EditorAction::DeleteForward)) => Some(CommandKind::EditorDeleteForward),
        CommandInvocation::Editor(EditorInvocation::Action(EditorAction::DeleteWordBackward)) => Some(CommandKind::EditorDeleteWordBackward),
        CommandInvocation::Editor(EditorInvocation::Action(EditorAction::DeleteWordForward)) => Some(CommandKind::EditorDeleteWordForward),
        CommandInvocation::Editor(EditorInvocation::Action(EditorAction::Undo)) => Some(CommandKind::EditorUndo),
        CommandInvocation::Editor(EditorInvocation::Action(EditorAction::Redo)) => Some(CommandKind::EditorRedo),
        CommandInvocation::Editor(EditorInvocation::Action(EditorAction::SelectAll)) => Some(CommandKind::EditorSelectAll),
        CommandInvocation::Editor(_) => None,
        CommandInvocation::Workspace(WorkspaceAction::FocusPanel(FocusTarget::Setting)) => None,
        CommandInvocation::Workspace(WorkspaceAction::FocusPanel(t)) => Some(CommandKind::WorkspaceFocusPanel(*t)),
        CommandInvocation::Workspace(WorkspaceAction::FocusOverlay(o)) => Some(CommandKind::WorkspaceFocusOverlay(*o)),
        CommandInvocation::Workspace(WorkspaceAction::CloseFocused) => Some(CommandKind::WorkspaceCloseFocused),
        CommandInvocation::Workspace(WorkspaceAction::OpenProjectPicker) => Some(CommandKind::WorkspaceOpenProjectPicker),
        CommandInvocation::Workspace(WorkspaceAction::OpenSettings) => Some(CommandKind::WorkspaceOpenSettings),
        CommandInvocation::Workspace(WorkspaceAction::OpenCodeActions) => Some(CommandKind::WorkspaceOpenCodeActions),
        CommandInvocation::Workspace(WorkspaceAction::StartDebugging) => Some(CommandKind::WorkspaceStartDebugging),
        CommandInvocation::Workspace(WorkspaceAction::FileTree(FileTreeAction::SelectPrev)) => Some(CommandKind::WorkspaceFileTreeSelectPrev),
        CommandInvocation::Workspace(WorkspaceAction::FileTree(FileTreeAction::SelectNext)) => Some(CommandKind::WorkspaceFileTreeSelectNext),
        CommandInvocation::Workspace(WorkspaceAction::FileTree(FileTreeAction::ExpandOrDescend)) => Some(CommandKind::WorkspaceFileTreeExpandOrDescend),
        CommandInvocation::Workspace(WorkspaceAction::FileTree(FileTreeAction::CollapseOrAscend)) => Some(CommandKind::WorkspaceFileTreeCollapseOrAscend),
        CommandInvocation::Workspace(WorkspaceAction::FileTree(FileTreeAction::ActivateSelection)) => Some(CommandKind::WorkspaceFileTreeActivateSelection),
        CommandInvocation::Workspace(WorkspaceAction::Tab(TabAction::CloseActiveTab)) => Some(CommandKind::WorkspaceTabCloseActive),
        CommandInvocation::Workspace(WorkspaceAction::Tab(TabAction::ActivatePrevTab)) => Some(CommandKind::WorkspaceTabActivatePrev),
        CommandInvocation::Workspace(WorkspaceAction::Tab(TabAction::ActivateNextTab)) => Some(CommandKind::WorkspaceTabActivateNext),
    }
}

/// The kind of a declared invocation.
pub fn command_kind(command: &CommandInvocation) -> (r: CommandKind)
    requires kind_of(*command) is Some,
    ensures r == kind_of(*command)->0,
{
    match kind_of_exec(command) {
        Some(k) => k,
        None => CommandKind::EditorInsertText,
    }
}

/// The id of a declared invocation's kind.
pub fn command_kind_id(command: &CommandInvocation) -> (r: CommandKindId)
    requires kind_of(*command) is Some,
    ensures r == kind_meta_spec(kind_of(*command)->0).id,
{
    command_kind_spec(command).meta.id
}

/// The metadata of a declared invocation's kind.
pub fn command_meta(command: &CommandInvocation) -> (r: CommandMeta)
    requires kind_of(*command) is Some,
    ensures r == kind_meta_spec(kind_of(*command)->0),
{
    command_kind_spec(command).meta
}

/// The declaration of a declared invocation's kind.
pub fn command_kind_spec(command: &CommandInvocation) -> (s: CommandKindSpec)
    requires kind_of(*command) is Some,
    ensures declares(s, kind_of(*command)->0),
{
    kind_spec(command_kind(command))
}

/// The default shortcuts of a declared invocation's kind.
pub fn default_shortcuts(command: &CommandInvocation) -> (v: Vec<CommandShortcut>)
    requires kind_of(*command) is Some,
    ensures v@ == kind_shortcuts_spec(kind_of(*command)->0),
{
    command_kind_spec(command).default_shortcuts
}

/// The invocation a declared kind builds without arguments; `None` for a
/// kind that needs a payload or is not declared.
pub fn invocation_from_kind(kind: CommandKind) -> (r: Option<CommandInvocation>)
    ensures r == (if kind_declared(kind) { kind_invocation(kind) } else { None }),
{
    if kind == CommandKind::WorkspaceFocusPanel(FocusTarget::Setting) {
        return None;
    }
    match kind {
        CommandKind::EditorInsertText => None,
        CommandKind::EditorInsertNewline => Some(CommandInvocation::Editor(EditorInvocation::Action(EditorAction::InsertNewline))),
        CommandKind::EditorMoveLeft => Some(CommandInvocation::Editor(EditorInvocation::Action(EditorAction::MoveLeft))),
        CommandKind::EditorMoveRight => Some(CommandInvocation::Editor(EditorInvocation::Action(EditorAction::MoveRight))),
        CommandKind::EditorMoveUp => Some(CommandInvocation::Editor(EditorInvocation::Action(EditorAction::MoveUp))),
        CommandKind::EditorMoveDown => Some(CommandInvocation::Editor(EditorInvocation::Action(EditorAction::MoveDown))),
        CommandKind::EditorMoveToStart => Some(CommandInvocation::Editor(EditorInvocation::Action(EditorAction::MoveToStart))),
        CommandKind::EditorMoveToEnd => Some(CommandInvocation::Editor(EditorInvocation::Action(EditorAction::MoveToEnd))),
        CommandKind::EditorMovePageUp => Some(CommandInvocation::Editor(EditorInvocation::Action(EditorAction::MovePageUp))),
        CommandKind::EditorMovePageDown => Some(CommandInvocation::Editor(EditorInvocation::Action(EditorAction::MovePageDown))),
        CommandKind::EditorDeleteBackward => Some(CommandInvocation::Editor(EditorInvocation::Action(EditorAction::DeleteBackward))),
        CommandKind::EditorDeleteForward => Some(CommandInvocation::Editor(EditorInvocation::Action(EditorAction::DeleteForward))),
        CommandKind::EditorDeleteWordBackward => Some(CommandInvocation::Editor(EditorInvocation::Action(EditorAction::DeleteWordBackward))),
        CommandKind::EditorDeleteWordForward => Some(CommandInvocation::Editor(EditorInvocation::Action(EditorAction::DeleteWordForward))),
        CommandKind::EditorUndo => Some(CommandInvocation::Editor(EditorInvocation::Action(EditorAction::Undo))),
        CommandKind::EditorRedo => Some(CommandInvocation::Editor(EditorInvocation::Action(EditorAction::Redo))),
        CommandKind::EditorSelectAll => Some(CommandInvocation::Editor(EditorInvocation::Action(EditorAction::SelectAll))),
        CommandKind::WorkspaceFocusPanel(t) => Some(CommandInvocation::Workspace(WorkspaceAction::FocusPanel(t))),
        CommandKind::WorkspaceFocusOverlay(o) => Some(CommandInvocation::Workspace(WorkspaceAction::FocusOverlay(o))),
        CommandKind::WorkspaceCloseFocused => Some(CommandInvocation::Workspace(WorkspaceAction::CloseFocused)),
        CommandKind::WorkspaceOpenProjectPicker => Some(CommandInvocation::Workspace(WorkspaceAction::OpenProjectPicker)),
        CommandKind::WorkspaceOpenSettings => Some(CommandInvocation::Workspace(WorkspaceAction::OpenSettings)),
        CommandKind::WorkspaceOpenCodeActions => Some(CommandInvocation::Workspace(WorkspaceAction::OpenCodeActions)),
        CommandKind::WorkspaceStartDebugging => Some(CommandInvocation::Workspace(WorkspaceAction::StartDebugging)),
        CommandKind::WorkspaceFileTreeSelectPrev => Some(CommandInvocation::Workspace(WorkspaceAction::FileTree(FileTreeAction::SelectPrev))),
        CommandKind::WorkspaceFileTreeSelectNext => Some(CommandInvocation::Workspace(WorkspaceAction::FileTree(FileTreeAction::SelectNext))),
        CommandKind::WorkspaceFileTreeExpandOrDescend => Some(CommandInvocation::Workspace(WorkspaceAction::FileTree(FileTreeAction::ExpandOrDescend))),
        CommandKind::WorkspaceFileTreeCollapseOrAscend => Some(CommandInvocation::Workspace(WorkspaceAction::FileTree(FileTreeAction::CollapseOrAscend))),
        CommandKind::WorkspaceFileTreeActivateSelection => Some(CommandInvocation::Workspace(WorkspaceAction::FileTree(FileTreeAction::ActivateSelection))),
        CommandKind::WorkspaceTabCloseActive => Some(CommandInvocation::Workspace(WorkspaceAction::Tab(TabAction::CloseActiveTab))),
        CommandKind::WorkspaceTabActivatePrev => Some(CommandInvocation::Workspace(WorkspaceAction::Tab(TabAction::ActivatePrevTab))),
        CommandKind::WorkspaceTabActivateNext => Some(CommandInvocation::Workspace(WorkspaceAction::Tab(TabAction::ActivateNextTab))),
    }
}

/// A binding as a plain pair.
pub open spec fn binding_view(b: DefaultShortcutBinding) -> (CommandInvocation, CommandShortcut) {
    (b.command, b.shortcut)
}

/// The bindings of the kinds `ks`: each buildable kind's invocation paired
/// with each of its default shortcuts, in order.
pub open spec fn kind_bindings(ks: Seq<CommandKind>) -> Seq<(CommandInvocation, CommandShortcut)>
    decreases ks.len(),
{
    if ks.len() == 0 {
        seq![]
    } else {
        let k = ks.last();
        let own = if kind_declared(k) && kind_invocation(k) is Some {
            kind_shortcuts_spec(k).map_values(|s: CommandShortcut| (kind_invocation(k)->0, s))
        } else {
            seq![]
        };
        kind_bindings(ks.drop_last()) + own
    }
}

/// The default shortcut bindings, projected from the declarations.
pub fn default_shortcut_bindings() -> (v: Vec<DefaultShortcutBinding>)
    ensures v@.map_values(|b: DefaultShortcutBinding| binding_view(b)) == kind_bindings(spec_kinds()),
{
    let kinds = all_kinds();
    let mut bindings: Vec<DefaultShortcutBinding> = Vec::new();
    let mut i: usize = 0;
    proof { assert(bindings@.map_values(|b: DefaultShortcutBinding| binding_view(b)) =~= kind_bindings(kinds@.take(0))); }
    while i < kinds.len()
        invariant
            kinds@ == spec_kinds(),
            i <= kinds@.len(),
            bindings@.map_values(|b: DefaultShortcutBinding| binding_view(b)) == kind_bindings(kinds@.take(i as int)),
        decreases kinds@.len() - i,
    {
        let k = kinds[i];
        let ghost start = bindings@.map_values(|b: DefaultShortcutBinding| binding_view(b));
        proof {
            assert(kinds@.take(i + 1).drop_last() =~= kinds@.take(i as int));
            assert(kinds@.take(i + 1).last() == k);
        }
        match invocation_from_kind(k) {
            None => {
                proof { assert(kind_bindings(kinds@.take(i + 1)) =~= kind_bindings(kinds@.take(i as int))); }
            },
            Some(command) => {
                let shortcuts = kind_shortcuts(k);
                let ghost mapped = shortcuts@.map_values(|s: CommandShortcut| (command, s));
                let mut j: usize = 0;
                while j < shortcuts.len()
                    invariant
                        j <= shortcuts@.len(),
                        mapped == shortcuts@.map_values(|s: CommandShortcut| (command, s)),
                        bindings@.map_values(|b: DefaultShortcutBinding| binding_view(b)) == start + mapped.take(j as int),
                    decreases shortcuts@.len() - j,
                {
                    let ghost before = bindings@;
                    bindings.push(DefaultShortcutBinding { command: command.clone(), shortcut: shortcuts[j] });
                    proof {
                        assert(bindings@.map_values(|b: DefaultShortcutBinding| binding_view(b))
                            =~= before.map_values(|b: DefaultShortcutBinding| binding_view(b)).push((command, shortcuts@[j as int])));
                        assert(mapped.take(j + 1) =~= mapped.take(j as int).push(mapped[j as int]));
                    }
                    j = j + 1;
                }
                proof { assert(mapped.take(shortcuts@.len() as int) =~= mapped); }
            },
        }
        i = i + 1;
    }
    proof { assert(kinds@.take(kinds@.len() as int) =~= kinds@); }
    bindings
}

impl CommandInvocation {
    /// The kind of a declared invocation.
    pub fn kind(&self) -> (r: CommandKind)
        requires kind_of(*self) is Some,
        ensures r == kind_of(*self)->0,
    {
        command_kind(self)
    }

    /// The id of a declared invocation's kind.
    pub fn kind_id(&self) -> (r: CommandKindId)
        requires kind_of(*self) is Some,
        ensures r == kind_meta_spec(kind_of(*self)->0).id,
    {
        command_kind_id(self)
    }

    /// The metadata of a declared invocation's kind.
    pub fn meta(&self) -> (r: CommandMeta)
        requires kind_of(*self) is Some,
        ensures r == kind_meta_spec(kind_of(*self)->0),
    {
        command_meta(self)
    }

    /// The default shortcuts of a declared invocation's kind.
    pub fn default_shortcuts(&self) -> (r: Vec<CommandShortcut>)
        requires kind_of(*self) is Some,
        ensures r@ == kind_shortcuts_spec(kind_of(*self)->0),
    {
        default_shortcuts(self)
    }
}

/// Law: building the invocation of a declared kind and looking its kind up
/// again gives that kind back; and a declared invocation without payload is
/// exactly the invocation its kind builds.
pub proof fn law_kind_roundtrip(k: CommandKind, c: CommandInvocation)
    ensures
        kind_declared(k) && kind_invocation(k) is Some ==> kind_of(kind_invocation(k)->0) == Some(k),
        kind_of(c) matches Some(kc) ==> kind_declared(kc),
        kind_of(c) matches Some(kc) ==> (kc != CommandKind::EditorInsertText ==> kind_invocation(kc) == Some(c)),
{
}

} // verus!
