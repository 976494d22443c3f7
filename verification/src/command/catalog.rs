//! The command catalog: stable ids, human readable descriptions and default
//! shortcuts of the top-level commands.

use vstd::prelude::*;

use crate::focus::{spec_all_targets, spec_is_visibility_managed, spec_managed_panels, FocusTarget};
use crate::input::{KeyCode, Keystroke, Modifiers};

verus! {

/// Top-level commands shared across the system.
#[derive(Debug, PartialEq, Eq, Hash)]
pub enum Command {
    /// A command for the text editor.
    Editor(EditorCommand),
    /// A command for the workbench.
    Workspace(WorkspaceCommand),
}

impl Clone for Command {
    fn clone(&self) -> (r: Self)
        ensures r == *self,
    {
        match self {
            Command::Editor(c) => Command::Editor(c.clone()),
            Command::Workspace(c) => Command::Workspace(*c),
        }
    }
}

/// Editor commands.
#[derive(Debug, PartialEq, Eq, Hash)]
pub enum EditorCommand {
    /// Insert a piece of text.
    InsertText(String),
    InsertNewline,
    MoveLeft,
    MoveRight,
    MoveUp,
    MoveDown,
    MoveToStart,
    MoveToEnd,
    MovePageUp,
    MovePageDown,
    DeleteBackward,
    DeleteForward,
    DeleteWordBackward,
    DeleteWordForward,
    Undo,
    Redo,
    SelectAll,
}

impl Clone for EditorCommand {
    fn clone(&self) -> (r: Self)
        ensures r == *self,
    {
        match self {
            EditorCommand::InsertText(t) => EditorCommand::InsertText(t.clone()),
            EditorCommand::InsertNewline => EditorCommand::InsertNewline,
            EditorCommand::MoveLeft => EditorCommand::MoveLeft,
            EditorCommand::MoveRight => EditorCommand::MoveRight,
            EditorCommand::MoveUp => EditorCommand::MoveUp,
            EditorCommand::MoveDown => EditorCommand::MoveDown,
            EditorCommand::MoveToStart => EditorCommand::MoveToStart,
            EditorCommand::MoveToEnd => EditorCommand::MoveToEnd,
            EditorCommand::MovePageUp => EditorCommand::MovePageUp,
            EditorCommand::MovePageDown => EditorCommand::MovePageDown,
            EditorCommand::DeleteBackward => EditorCommand::DeleteBackward,
            EditorCommand::DeleteForward => EditorCommand::DeleteForward,
            EditorCommand::DeleteWordBackward => EditorCommand::DeleteWordBackward,
            EditorCommand::DeleteWordForward => EditorCommand::DeleteWordForward,
            EditorCommand::Undo => EditorCommand::Undo,
            EditorCommand::Redo => EditorCommand::Redo,
            EditorCommand::SelectAll => EditorCommand::SelectAll,
        }
    }
}

/// File tree commands.
#[derive(Debug, Clone, Copy, PartialEq, Eq, Structural, Hash)]
pub enum FileTreeCommand {
    /// Select the previous visible node.
    SelectPrev,
    /// Select the next visible node.
    SelectNext,
    /// Expand a folder or descend into it.
    ExpandOrDescend,
    /// Collapse a folder or go up to the parent.
    CollapseOrAscend,
    /// Activate the selected node.
    ActivateSelection,
}

/// Tab commands.
#[derive(Debug, Clone, Copy, PartialEq, Eq, Structural, Hash)]
pub enum TabCommand {
    /// Close the active tab.
    CloseActiveTab,
    /// Activate the previous tab.
    ActivatePrevTab,
    /// Activate the next tab.
    ActivateNextTab,
}

/// Workbench commands.
#[derive(Debug, Clone, Copy, PartialEq, Eq, Structural, Hash)]
pub enum WorkspaceCommand {
    /// Show and focus a panel.
    FocusPanel(FocusTarget),
    /// Toggle the visibility of a panel.
    TogglePanel(FocusTarget),
    /// Open the project folder picker.
    OpenProjectPicker,
    /// Open the settings.
    OpenSettings,
    /// Open the code actions menu.
    OpenCodeActions,
    /// Start debugging.
    StartDebugging,
    /// A file tree command.
    FileTree(FileTreeCommand),
    /// A tab command.
    Tab(TabCommand),
}

impl From<EditorCommand> for Command {
    fn from(command: EditorCommand) -> (r: Self)
        ensures r == Command::Editor(command),
    {
        Command::Editor(command)
    }
}

impl vstd::std_specs::convert::FromSpecImpl<EditorCommand> for Command {
    open spec fn obeys_from_spec() -> bool {
        true
    }

    open spec fn from_spec(command: EditorCommand) -> Command {
        Command::Editor(command)
    }
}

impl From<WorkspaceCommand> for Command {
    fn from(command: WorkspaceCommand) -> (r: Self)
        ensures r == (Command::Workspace(command)),
    {
        Command::Workspace(command)
    }
}

impl vstd::std_specs::convert::FromSpecImpl<WorkspaceCommand> for Command {
    open spec fn obeys_from_spec() -> bool {
        true
    }

    open spec fn from_spec(command: WorkspaceCommand) -> Command {
        Command::Workspace(command)
    }
}

impl From<FileTreeCommand> for Command {
    fn from(command: FileTreeCommand) -> (r: Self)
        ensures r == (Command::Workspace(WorkspaceCommand::FileTree(command))),
    {
        Command::Workspace(WorkspaceCommand::FileTree(command))
    }
}

impl vstd::std_specs::convert::FromSpecImpl<FileTreeCommand> for Command {
    open spec fn obeys_from_spec() -> bool {
        true
    }

    open spec fn from_spec(command: FileTreeCommand) -> Command {
        Command::Workspace(WorkspaceCommand::FileTree(command))
    }
}

impl From<TabCommand> for Command {
    fn from(command: TabCommand) -> (r: Self)
        ensures r == (Command::Workspace(WorkspaceCommand::Tab(command))),
    {
        Command::Workspace(WorkspaceCommand::Tab(command))
    }
}

impl vstd::std_specs::convert::FromSpecImpl<TabCommand> for Command {
    open spec fn obeys_from_spec() -> bool {
        true
    }

    open spec fn from_spec(command: TabCommand) -> Command {
        Command::Workspace(WorkspaceCommand::Tab(command))
    }
}

/// Stable identifiers of commands.
#[derive(Debug, Clone, Copy, PartialEq, Eq, Structural, Hash)]
pub enum CommandId {
    EditorInsertText,
    EditorInsertNewline,
    EditorMoveLeft,
    EditorMoveRight,
    EditorMoveUp,
    EditorMoveDown,
    EditorMoveToStart,
    EditorMoveToEnd,
    EditorMovePageUp,
    EditorMovePageDown,
    EditorDeleteBackward,
    EditorDeleteForward,
    EditorDeleteWordBackward,
    EditorDeleteWordForward,
    EditorUndo,
    EditorRedo,
    EditorSelectAll,
    WorkspaceFocusPanel(FocusTarget),
    WorkspaceTogglePanel(FocusTarget),
    WorkspaceOpenProjectPicker,
    WorkspaceOpenSettings,
    WorkspaceOpenCodeActions,
    WorkspaceStartDebugging,
    WorkspaceFileTreeSelectPrev,
    WorkspaceFileTreeSelectNext,
    WorkspaceFileTreeExpandOrDescend,
    WorkspaceFileTreeCollapseOrAscend,
    WorkspaceFileTreeActivateSelection,
    WorkspaceTabCloseActive,
    WorkspaceTabActivatePrev,
    WorkspaceTabActivateNext,
}

/// A human readable description of a command.
#[derive(Debug, Clone, Copy, PartialEq, Eq, Hash)]
pub struct CommandDescriptor {
    /// Stable id, for references across layers and documentation.
    pub id: &'static str,
    /// Short title.
    pub title: &'static str,
    /// What the command does.
    pub description: &'static str,
}

impl CommandDescriptor {
    /// A descriptor.
    pub fn new(id: &'static str, title: &'static str, description: &'static str) -> (d: Self)
        ensures d == (CommandDescriptor { id, title, description }),
    {
        CommandDescriptor { id, title, description }
    }
}

/// Where a default shortcut applies.
#[derive(Debug, Clone, Copy, PartialEq, Eq, Structural, Hash)]
pub enum ShortcutScope {
    /// Everywhere.
    Global,
    /// Only while the given target has the focus.
    Focus(FocusTarget),
}

/// Extra conditions of a default shortcut.
#[derive(Debug, Clone, Copy, PartialEq, Eq, Structural, Hash)]
pub enum ShortcutWhen {
    /// No extra condition.
    Always,
}

/// Platforms a default shortcut applies to.
#[derive(Debug, Clone, Copy, PartialEq, Eq, Structural, Hash)]
pub enum ShortcutPlatform {
    /// Every platform.
    Any,
    /// macOS.
    MacOS,
    /// Windows.
    Windows,
    /// Linux.
    Linux,
}

/// A default shortcut declared by the catalog.
#[derive(Debug, Clone, Copy, PartialEq, Eq, Structural)]
pub struct CommandShortcut {
    /// Scope.
    pub scope: ShortcutScope,
    /// The keystroke.
    pub keystroke: Keystroke,
    /// Extra condition.
    pub when: ShortcutWhen,
    /// Platform.
    pub platform: ShortcutPlatform,
    /// Priority (higher wins).
    pub priority: u8,
}

impl CommandShortcut {
    /// A shortcut that always applies, on every platform, with priority 0.
    pub fn new(scope: ShortcutScope, keystroke: Keystroke) -> (s: Self)
        ensures s == shortcut_spec(scope, keystroke, 0),
    {
        CommandShortcut { scope, keystroke, when: ShortcutWhen::Always, platform: ShortcutPlatform::Any, priority: 0 }
    }

    /// Sets the condition.
    pub fn with_when(self, when: ShortcutWhen) -> (s: Self)
        ensures s == (CommandShortcut { when, ..self }),
    {
        CommandShortcut { when, ..self }
    }

    /// Sets the platform.
    pub fn with_platform(self, platform: ShortcutPlatform) -> (s: Self)
        ensures s == (CommandShortcut { platform, ..self }),
    {
        CommandShortcut { platform, ..self }
    }

    /// Sets the priority.
    pub fn with_priority(self, priority: u8) -> (s: Self)
        ensures s == (CommandShortcut { priority, ..self }),
    {
        CommandShortcut { priority, ..self }
    }
}

/// A command together with one of its default shortcuts.
#[derive(Debug, PartialEq, Eq)]
pub struct DefaultShortcutBinding {
    /// The command.
    pub command: Command,
    /// The shortcut.
    pub shortcut: CommandShortcut,
}

/// One entry of the catalog.
#[derive(Debug, PartialEq, Eq)]
pub struct CommandCatalogEntry {
    /// Command id.
    pub id: CommandId,
    /// Description.
    pub descriptor: CommandDescriptor,
    /// Default shortcuts (possibly none).
    pub default_shortcuts: Vec<CommandShortcut>,
}

impl Command {
    /// The stable id of the command.
    pub fn id(&self) -> (r: CommandId)
        ensures r == command_id_spec(*self),
    {
        command_id(self)
    }

    /// The description of the command.
    pub fn descriptor(&self) -> (r: CommandDescriptor)
        ensures r == descriptor_spec(command_id_spec(*self)),
    {
        command_descriptor(self)
    }

    /// The default shortcuts of the command.
    pub fn default_shortcuts(&self) -> (r: Vec<CommandShortcut>)
        ensures r@ == shortcuts_spec(command_id_spec(*self)),
    {
        default_shortcuts(self)
    }
}

/// The stable id of a command: its variant, with the panel for panel commands.
pub open spec fn command_id_spec(c: Command) -> CommandId {
    match c {
        Command::Editor(EditorCommand::InsertText(_)) => CommandId::EditorInsertText,
        Command::Editor(EditorCommand::InsertNewline) => CommandId::EditorInsertNewline,
        Command::Editor(EditorCommand::MoveLeft) => CommandId::EditorMoveLeft,
        Command::Editor(EditorCommand::MoveRight) => CommandId::EditorMoveRight,
        Command::Editor(EditorCommand::MoveUp) => CommandId::EditorMoveUp,
        Command::Editor(EditorCommand::MoveDown) => CommandId::EditorMoveDown,
        Command::Editor(EditorCommand::MoveToStart) => CommandId::EditorMoveToStart,
        Command::Editor(EditorCommand::MoveToEnd) => CommandId::EditorMoveToEnd,
        Command::Editor(EditorCommand::MovePageUp) => CommandId::EditorMovePageUp,
        Command::Editor(EditorCommand::MovePageDown) => CommandId::EditorMovePageDown,
        Command::Editor(EditorCommand::DeleteBackward) => CommandId::EditorDeleteBackward,
        Command::Editor(EditorCommand::DeleteForward) => CommandId::EditorDeleteForward,
        Command::Editor(EditorCommand::DeleteWordBackward) => CommandId::EditorDeleteWordBackward,
        Command::Editor(EditorCommand::DeleteWordForward) => CommandId::EditorDeleteWordForward,
        Command::Editor(EditorCommand::Undo) => CommandId::EditorUndo,
        Command::Editor(EditorCommand::Redo) => CommandId::EditorRedo,
        Command::Editor(EditorCommand::SelectAll) => CommandId::EditorSelectAll,
        Command::Workspace(WorkspaceCommand::FocusPanel(target)) => CommandId::WorkspaceFocusPanel(target),
        Command::Workspace(WorkspaceCommand::TogglePanel(target)) => CommandId::WorkspaceTogglePanel(target),
        Command::Workspace(WorkspaceCommand::OpenProjectPicker) => CommandId::WorkspaceOpenProjectPicker,
        Command::Workspace(WorkspaceCommand::OpenSettings) => CommandId::WorkspaceOpenSettings,
        Command::Workspace(WorkspaceCommand::OpenCodeActions) => CommandId::WorkspaceOpenCodeActions,
        Command::Workspace(WorkspaceCommand::StartDebugging) => CommandId::WorkspaceStartDebugging,
        Command::Workspace(WorkspaceCommand::FileTree(FileTreeCommand::SelectPrev)) => CommandId::WorkspaceFileTreeSelectPrev,
        Command::Workspace(WorkspaceCommand::FileTree(FileTreeCommand::SelectNext)) => CommandId::WorkspaceFileTreeSelectNext,
        Command::Workspace(WorkspaceCommand::FileTree(FileTreeCommand::ExpandOrDescend)) => CommandId::WorkspaceFileTreeExpandOrDescend,
        Command::Workspace(WorkspaceCommand::FileTree(FileTreeCommand::CollapseOrAscend)) => CommandId::WorkspaceFileTreeCollapseOrAscend,
        Command::Workspace(WorkspaceCommand::FileTree(FileTreeCommand::ActivateSelection)) => CommandId::WorkspaceFileTreeActivateSelection,
        Command::Workspace(WorkspaceCommand::Tab(TabCommand::CloseActiveTab)) => CommandId::WorkspaceTabCloseActive,
        Command::Workspace(WorkspaceCommand::Tab(TabCommand::ActivatePrevTab)) => CommandId::WorkspaceTabActivatePrev,
        Command::Workspace(WorkspaceCommand::Tab(TabCommand::ActivateNextTab)) => CommandId::WorkspaceTabActivateNext,
    }
}

/// The stable id of a command.
pub fn command_id(command: &Command) -> (r: CommandId)
    ensures r == command_id_spec(*command),
{
    match command {
        Command::Editor(EditorCommand::InsertText(_)) => CommandId::EditorInsertText,
        Command::Editor(EditorCommand::InsertNewline) => CommandId::EditorInsertNewline,
        Command::Editor(EditorCommand::MoveLeft) => CommandId::EditorMoveLeft,
        Command::Editor(EditorCommand::MoveRight) => CommandId::EditorMoveRight,
        Command::Editor(EditorCommand::MoveUp) => CommandId::EditorMoveUp,
        Command::Editor(EditorCommand::MoveDown) => CommandId::EditorMoveDown,
        Command::Editor(EditorCommand::MoveToStart) => CommandId::EditorMoveToStart,
        Command::Editor(EditorCommand::MoveToEnd) => CommandId::EditorMoveToEnd,
        Command::Editor(EditorCommand::MovePageUp) => CommandId::EditorMovePageUp,
        Command::Editor(EditorCommand::MovePageDown) => CommandId::EditorMovePageDown,
        Command::Editor(EditorCommand::DeleteBackward) => CommandId::EditorDeleteBackward,
        Command::Editor(EditorCommand::DeleteForward) => CommandId::EditorDeleteForward,
        Command::Editor(EditorCommand::DeleteWordBackward) => CommandId::EditorDeleteWordBackward,
        Command::Editor(EditorCommand::DeleteWordForward) => CommandId::EditorDeleteWordForward,
        Command::Editor(EditorCommand::Undo) => CommandId::EditorUndo,
        Command::Editor(EditorCommand::Redo) => CommandId::EditorRedo,
        Command::Editor(EditorCommand::SelectAll) => CommandId::EditorSelectAll,
        Command::Workspace(WorkspaceCommand::FocusPanel(target)) => CommandId::WorkspaceFocusPanel(*target),
        Command::Workspace(WorkspaceCommand::TogglePanel(target)) => CommandId::WorkspaceTogglePanel(*target),
        Command::Workspace(WorkspaceCommand::OpenProjectPicker) => CommandId::WorkspaceOpenProjectPicker,
        Command::Workspace(WorkspaceCommand::OpenSettings) => CommandId::WorkspaceOpenSettings,
        Command::Workspace(WorkspaceCommand::OpenCodeActions) => CommandId::WorkspaceOpenCodeActions,
        Command::Workspace(WorkspaceCommand::StartDebugging) => CommandId::WorkspaceStartDebugging,
        Command::Workspace(WorkspaceCommand::FileTree(FileTreeCommand::SelectPrev)) => CommandId::WorkspaceFileTreeSelectPrev,
        Command::Workspace(WorkspaceCommand::FileTree(FileTreeCommand::SelectNext)) => CommandId::WorkspaceFileTreeSelectNext,
        Command::Workspace(WorkspaceCommand::FileTree(FileTreeCommand::ExpandOrDescend)) => CommandId::WorkspaceFileTreeExpandOrDescend,
        Command::Workspace(WorkspaceCommand::FileTree(FileTreeCommand::CollapseOrAscend)) => CommandId::WorkspaceFileTreeCollapseOrAscend,
        Command::Workspace(WorkspaceCommand::FileTree(FileTreeCommand::ActivateSelection)) => CommandId::WorkspaceFileTreeActivateSelection,
        Command::Workspace(WorkspaceCommand::Tab(TabCommand::CloseActiveTab)) => CommandId::WorkspaceTabCloseActive,
        Command::Workspace(WorkspaceCommand::Tab(TabCommand::ActivatePrevTab)) => CommandId::WorkspaceTabActivatePrev,
        Command::Workspace(WorkspaceCommand::Tab(TabCommand::ActivateNextTab)) => CommandId::WorkspaceTabActivateNext,
    }
}

/// The stable id of the command focusing `target`.
pub open spec fn focus_panel_id_spec(target: FocusTarget) -> &'static str {
    match target {
        FocusTarget::Editor => "workspace.focus_panel.editor",
        FocusTarget::Palette => "workspace.focus_panel.palette",
        FocusTarget::Setting => "workspace.focus_panel.settings",
        FocusTarget::FileTreePanel => "workspace.focus_panel.file_tree",
        FocusTarget::GitPanel => "workspace.focus_panel.git",
        FocusTarget::OutlinePanel => "workspace.focus_panel.outline",
        FocusTarget::ProjectSearchPanel => "workspace.focus_panel.project_search",
        FocusTarget::LanguageServersPanel => "workspace.focus_panel.language_servers",
        FocusTarget::TerminalPanel => "workspace.focus_panel.terminal",
        FocusTarget::DebugPanel => "workspace.focus_panel.debug",
        FocusTarget::NotificationPanel => "workspace.focus_panel.notification",
    }
}

/// The stable id of the command focusing `target`.
pub fn focus_panel_id(target: FocusTarget) -> (s: &'static str)
    ensures s == focus_panel_id_spec(target),
{
    match target {
        FocusTarget::Editor => "workspace.focus_panel.editor",
        FocusTarget::Palette => "workspace.focus_panel.palette",
        FocusTarget::Setting => "workspace.focus_panel.settings",
        FocusTarget::FileTreePanel => "workspace.focus_panel.file_tree",
        FocusTarget::GitPanel => "workspace.focus_panel.git",
        FocusTarget::OutlinePanel => "workspace.focus_panel.outline",
        FocusTarget::ProjectSearchPanel => "workspace.focus_panel.project_search",
        FocusTarget::LanguageServersPanel => "workspace.focus_panel.language_servers",
        FocusTarget::TerminalPanel => "workspace.focus_panel.terminal",
        FocusTarget::DebugPanel => "workspace.focus_panel.debug",
        FocusTarget::NotificationPanel => "workspace.focus_panel.notification",
    }
}

/// The title of the command focusing `target`.
pub open spec fn focus_panel_title_spec(target: FocusTarget) -> &'static str {
    match target {
        FocusTarget::Editor => "Focus Editor",
        FocusTarget::Palette => "Focus Command Palette",
        FocusTarget::Setting => "Focus Settings",
        FocusTarget::FileTreePanel => "Focus File Tree Panel",
        FocusTarget::GitPanel => "Focus Git Panel",
        FocusTarget::OutlinePanel => "Focus Outline Panel",
        FocusTarget::ProjectSearchPanel => "Focus Project Search Panel",
        FocusTarget::LanguageServersPanel => "Focus Language Servers Panel",
        FocusTarget::TerminalPanel => "Focus Terminal Panel",
        FocusTarget::DebugPanel => "Focus Debug Panel",
        FocusTarget::NotificationPanel => "Focus Notification Panel",
    }
}

/// The title of the command focusing `target`.
pub fn focus_panel_title(target: FocusTarget) -> (s: &'static str)
    ensures s == focus_panel_title_spec(target),
{
    match target {
        FocusTarget::Editor => "Focus Editor",
        FocusTarget::Palette => "Focus Command Palette",
        FocusTarget::Setting => "Focus Settings",
        FocusTarget::FileTreePanel => "Focus File Tree Panel",
        FocusTarget::GitPanel => "Focus Git Panel",
        FocusTarget::OutlinePanel => "Focus Outline Panel",
        FocusTarget::ProjectSearchPanel => "Focus Project Search Panel",
        FocusTarget::LanguageServersPanel => "Focus Language Servers Panel",
        FocusTarget::TerminalPanel => "Focus Terminal Panel",
        FocusTarget::DebugPanel => "Focus Debug Panel",
        FocusTarget::NotificationPanel => "Focus Notification Panel",
    }
}

/// The description of the command focusing `target`.
pub open spec fn focus_panel_description_spec(target: FocusTarget) -> &'static str {
    match target {
        FocusTarget::Editor => "Move focus to the editor pane.",
        FocusTarget::Palette => "Move focus to the command palette.",
        FocusTarget::Setting => "Move focus to the settings.",
        FocusTarget::FileTreePanel => "Show file tree panel and move focus to it.",
        FocusTarget::GitPanel => "Show Git panel and move focus to it.",
        FocusTarget::OutlinePanel => "Show outline panel and move focus to it.",
        FocusTarget::ProjectSearchPanel => "Show project search panel and move focus to it.",
        FocusTarget::LanguageServersPanel => "Show language servers panel and move focus to it.",
        FocusTarget::TerminalPanel => "Show terminal panel and move focus to it.",
        FocusTarget::DebugPanel => "Show debug panel and move focus to it.",
        FocusTarget::NotificationPanel => "Show notification panel and move focus to it.",
    }
}

/// The description of the command focusing `target`.
pub fn focus_panel_description(target: FocusTarget) -> (s: &'static str)
    ensures s == focus_panel_description_spec(target),
{
    match target {
        FocusTarget::Editor => "Move focus to the editor pane.",
        FocusTarget::Palette => "Move focus to the command palette.",
        FocusTarget::Setting => "Move focus to the settings.",
        FocusTarget::FileTreePanel => "Show file tree panel and move focus to it.",
        FocusTarget::GitPanel => "Show Git panel and move focus to it.",
        FocusTarget::OutlinePanel => "Show outline panel and move focus to it.",
        FocusTarget::ProjectSearchPanel => "Show project search panel and move focus to it.",
        FocusTarget::LanguageServersPanel => "Show language servers panel and move focus to it.",
        FocusTarget::TerminalPanel => "Show terminal panel and move focus to it.",
        FocusTarget::DebugPanel => "Show debug panel and move focus to it.",
        FocusTarget::NotificationPanel => "Show notification panel and move focus to it.",
    }
}

/// The stable id of the command toggling `target`.
pub open spec fn toggle_panel_id_spec(target: FocusTarget) -> &'static str {
    match target {
        FocusTarget::Editor => "workspace.toggle_panel.editor",
        FocusTarget::Palette => "workspace.toggle_panel.palette",
        FocusTarget::Setting => "workspace.toggle_panel.settings",
        FocusTarget::FileTreePanel => "workspace.toggle_panel.file_tree",
        FocusTarget::GitPanel => "workspace.toggle_panel.git",
        FocusTarget::OutlinePanel => "workspace.toggle_panel.outline",
        FocusTarget::ProjectSearchPanel => "workspace.toggle_panel.project_search",
        FocusTarget::LanguageServersPanel => "workspace.toggle_panel.language_servers",
        FocusTarget::TerminalPanel => "workspace.toggle_panel.terminal",
        FocusTarget::DebugPanel => "workspace.toggle_panel.debug",
        FocusTarget::NotificationPanel => "workspace.toggle_panel.notification",
    }
}

/// The stable id of the command toggling `target`.
pub fn toggle_panel_id(target: FocusTarget) -> (s: &'static str)
    ensures s == toggle_panel_id_spec(target),
{
    match target {
        FocusTarget::Editor => "workspace.toggle_panel.editor",
        FocusTarget::Palette => "workspace.toggle_panel.palette",
        FocusTarget::Setting => "workspace.toggle_panel.settings",
        FocusTarget::FileTreePanel => "workspace.toggle_panel.file_tree",
        FocusTarget::GitPanel => "workspace.toggle_panel.git",
        FocusTarget::OutlinePanel => "workspace.toggle_panel.outline",
        FocusTarget::ProjectSearchPanel => "workspace.toggle_panel.project_search",
        FocusTarget::LanguageServersPanel => "workspace.toggle_panel.language_servers",
        FocusTarget::TerminalPanel => "workspace.toggle_panel.terminal",
        FocusTarget::DebugPanel => "workspace.toggle_panel.debug",
        FocusTarget::NotificationPanel => "workspace.toggle_panel.notification",
    }
}

/// The title of the command toggling `target`.
pub open spec fn toggle_panel_title_spec(target: FocusTarget) -> &'static str {
    match target {
        FocusTarget::Editor => "Toggle Editor",
        FocusTarget::Palette => "Toggle Command Palette",
        FocusTarget::Setting => "Toggle Settings",
        FocusTarget::FileTreePanel => "Toggle File Tree Panel",
        FocusTarget::GitPanel => "Toggle Git Panel",
        FocusTarget::OutlinePanel => "Toggle Outline Panel",
        FocusTarget::ProjectSearchPanel => "Toggle Project Search Panel",
        FocusTarget::LanguageServersPanel => "Toggle Language Servers Panel",
        FocusTarget::TerminalPanel => "Toggle Terminal Panel",
        FocusTarget::DebugPanel => "Toggle Debug Panel",
        FocusTarget::NotificationPanel => "Toggle Notification Panel",
    }
}

/// The title of the command toggling `target`.
pub fn toggle_panel_title(target: FocusTarget) -> (s: &'static str)
    ensures s == toggle_panel_title_spec(target),
{
    match target {
        FocusTarget::Editor => "Toggle Editor",
        FocusTarget::Palette => "Toggle Command Palette",
        FocusTarget::Setting => "Toggle Settings",
        FocusTarget::FileTreePanel => "Toggle File Tree Panel",
        FocusTarget::GitPanel => "Toggle Git Panel",
        FocusTarget::OutlinePanel => "Toggle Outline Panel",
        FocusTarget::ProjectSearchPanel => "Toggle Project Search Panel",
        FocusTarget::LanguageServersPanel => "Toggle Language Servers Panel",
        FocusTarget::TerminalPanel => "Toggle Terminal Panel",
        FocusTarget::DebugPanel => "Toggle Debug Panel",
        FocusTarget::NotificationPanel => "Toggle Notification Panel",
    }
}

/// The description of the command toggling `target`.
pub open spec fn toggle_panel_description_spec(target: FocusTarget) -> &'static str {
    match target {
        FocusTarget::Editor => "Toggle editor visibility.",
        FocusTarget::Palette => "Toggle command palette visibility.",
        FocusTarget::Setting => "Toggle settings visibility.",
        FocusTarget::FileTreePanel => "Toggle file tree panel visibility.",
        FocusTarget::GitPanel => "Toggle Git panel visibility.",
        FocusTarget::OutlinePanel => "Toggle outline panel visibility.",
        FocusTarget::ProjectSearchPanel => "Toggle project search panel visibility.",
        FocusTarget::LanguageServersPanel => "Toggle language servers panel visibility.",
        FocusTarget::TerminalPanel => "Toggle terminal panel visibility.",
        FocusTarget::DebugPanel => "Toggle debug panel visibility.",
        FocusTarget::NotificationPanel => "Toggle notification panel visibility.",
    }
}

/// The description of the command toggling `target`.
pub fn toggle_panel_description(target: FocusTarget) -> (s: &'static str)
    ensures s == toggle_panel_description_spec(target),
{
    match target {
        FocusTarget::Editor => "Toggle editor visibility.",
        FocusTarget::Palette => "Toggle command palette visibility.",
        FocusTarget::Setting => "Toggle settings visibility.",
        FocusTarget::FileTreePanel => "Toggle file tree panel visibility.",
        FocusTarget::GitPanel => "Toggle Git panel visibility.",
        FocusTarget::OutlinePanel => "Toggle outline panel visibility.",
        FocusTarget::ProjectSearchPanel => "Toggle project search panel visibility.",
        FocusTarget::LanguageServersPanel => "Toggle language servers panel visibility.",
        FocusTarget::TerminalPanel => "Toggle terminal panel visibility.",
        FocusTarget::DebugPanel => "Toggle debug panel visibility.",
        FocusTarget::NotificationPanel => "Toggle notification panel visibility.",
    }
}


/// The description of each command id.
pub open spec fn descriptor_spec(id: CommandId) -> CommandDescriptor {
    match id {
        CommandId::EditorInsertText => CommandDescriptor { id: "editor.insert_text", title: "Insert Text", description: "Insert provided text at the current caret position." },
        CommandId::EditorInsertNewline => CommandDescriptor { id: "editor.insert_newline", title: "Insert Newline", description: "Insert a newline at the current caret position." },
        CommandId::EditorMoveLeft => CommandDescriptor { id: "editor.move_left", title: "Move Left", description: "Move the caret one character to the left." },
        CommandId::EditorMoveRight => CommandDescriptor { id: "editor.move_right", title: "Move Right", description: "Move the caret one character to the right." },
        CommandId::EditorMoveUp => CommandDescriptor { id: "editor.move_up", title: "Move Up", description: "Move the caret one line up." },
        CommandId::EditorMoveDown => CommandDescriptor { id: "editor.move_down", title: "Move Down", description: "Move the caret one line down." },
        CommandId::EditorMoveToStart => CommandDescriptor { id: "editor.move_to_start", title: "Move To Start", description: "Move the caret to the beginning of the current line." },
        CommandId::EditorMoveToEnd => CommandDescriptor { id: "editor.move_to_end", title: "Move To End", description: "Move the caret to the end of the current line." },
        CommandId::EditorMovePageUp => CommandDescriptor { id: "editor.page_up", title: "Page Up", description: "Move the caret one page up." },
        CommandId::EditorMovePageDown => CommandDescriptor { id: "editor.page_down", title: "Page Down", description: "Move the caret one page down." },
        CommandId::EditorDeleteBackward => CommandDescriptor { id: "editor.delete_backward", title: "Delete Backward", description: "Delete one character backward." },
        CommandId::EditorDeleteForward => CommandDescriptor { id: "editor.delete_forward", title: "Delete Forward", description: "Delete one character forward." },
        CommandId::EditorDeleteWordBackward => CommandDescriptor { id: "editor.delete_word_backward", title: "Delete Word Backward", description: "Delete one word backward." },
        CommandId::EditorDeleteWordForward => CommandDescriptor { id: "editor.delete_word_forward", title: "Delete Word Forward", description: "Delete one word forward." },
        CommandId::EditorUndo => CommandDescriptor { id: "editor.undo", title: "Undo", description: "Undo the most recent edit." },
        CommandId::EditorRedo => CommandDescriptor { id: "editor.redo", title: "Redo", description: "Redo the most recently undone edit." },
        CommandId::EditorSelectAll => CommandDescriptor { id: "editor.select_all", title: "Select All", description: "Select all content in the current editor." },
        CommandId::WorkspaceFocusPanel(target) => CommandDescriptor { id: focus_panel_id_spec(target), title: focus_panel_title_spec(target), description: focus_panel_description_spec(target) },
        CommandId::WorkspaceTogglePanel(target) => CommandDescriptor { id: toggle_panel_id_spec(target), title: toggle_panel_title_spec(target), description: toggle_panel_description_spec(target) },
        CommandId::WorkspaceOpenProjectPicker => CommandDescriptor { id: "workspace.open_project_picker", title: "Open Project Picker", description: "Open the project folder picker." },
        CommandId::WorkspaceOpenSettings => CommandDescriptor { id: "workspace.open_settings", title: "Open Settings", description: "Open application settings." },
        CommandId::WorkspaceOpenCodeActions => CommandDescriptor { id: "workspace.open_code_actions", title: "Open Code Actions", description: "Open the code actions menu." },
        CommandId::WorkspaceStartDebugging => CommandDescriptor { id: "workspace.start_debugging", title: "Start Debugging", description: "Start or continue debugging." },
        CommandId::WorkspaceFileTreeSelectPrev => CommandDescriptor { id: "workspace.file_tree.select_prev", title: "File Tree Select Previous", description: "Move file-tree selection to the previous visible node." },
        CommandId::WorkspaceFileTreeSelectNext => CommandDescriptor { id: "workspace.file_tree.select_next", title: "File Tree Select Next", description: "Move file-tree selection to the next visible node." },
        CommandId::WorkspaceFileTreeExpandOrDescend => CommandDescriptor { id: "workspace.file_tree.expand_or_descend", title: "File Tree Expand Or Descend", description: "Expand selected folder or descend into its first child." },
        CommandId::WorkspaceFileTreeCollapseOrAscend => CommandDescriptor { id: "workspace.file_tree.collapse_or_ascend", title: "File Tree Collapse Or Ascend", description: "Collapse selected folder or move selection to parent node." },
        CommandId::WorkspaceFileTreeActivateSelection => CommandDescriptor { id: "workspace.file_tree.activate_selection", title: "File Tree Activate Selection", description: "Activate selected file-tree node." },
        CommandId::WorkspaceTabCloseActive => CommandDescriptor { id: "workspace.tab.close_active", title: "Close Active Tab", description: "Close the currently active tab." },
        CommandId::WorkspaceTabActivatePrev => CommandDescriptor { id: "workspace.tab.activate_prev", title: "Activate Previous Tab", description: "Activate the previous tab." },
        CommandId::WorkspaceTabActivateNext => CommandDescriptor { id: "workspace.tab.activate_next", title: "Activate Next Tab", description: "Activate the next tab." },
    }
}

/// The description of a command id.
pub(crate) fn descriptor_for_id(id: CommandId) -> (d: CommandDescriptor)
    ensures d == descriptor_spec(id),
{
    match id {
        CommandId::EditorInsertText => CommandDescriptor { id: "editor.insert_text", title: "Insert Text", description: "Insert provided text at the current caret position." },
        CommandId::EditorInsertNewline => CommandDescriptor { id: "editor.insert_newline", title: "Insert Newline", description: "Insert a newline at the current caret position." },
        CommandId::EditorMoveLeft => CommandDescriptor { id: "editor.move_left", title: "Move Left", description: "Move the caret one character to the left." },
        CommandId::EditorMoveRight => CommandDescriptor { id: "editor.move_right", title: "Move Right", description: "Move the caret one character to the right." },
        CommandId::EditorMoveUp => CommandDescriptor { id: "editor.move_up", title: "Move Up", description: "Move the caret one line up." },
        CommandId::EditorMoveDown => CommandDescriptor { id: "editor.move_down", title: "Move Down", description: "Move the caret one line down." },
        CommandId::EditorMoveToStart => CommandDescriptor { id: "editor.move_to_start", title: "Move To Start", description: "Move the caret to the beginning of the current line." },
        CommandId::EditorMoveToEnd => CommandDescriptor { id: "editor.move_to_end", title: "Move To End", description: "Move the caret to the end of the current line." },
        CommandId::EditorMovePageUp => CommandDescriptor { id: "editor.page_up", title: "Page Up", description: "Move the caret one page up." },
        CommandId::EditorMovePageDown => CommandDescriptor { id: "editor.page_down", title: "Page Down", description: "Move the caret one page down." },
        CommandId::EditorDeleteBackward => CommandDescriptor { id: "editor.delete_backward", title: "Delete Backward", description: "Delete one character backward." },
        CommandId::EditorDeleteForward => CommandDescriptor { id: "editor.delete_forward", title: "Delete Forward", description: "Delete one character forward." },
        CommandId::EditorDeleteWordBackward => CommandDescriptor { id: "editor.delete_word_backward", title: "Delete Word Backward", description: "Delete one word backward." },
        CommandId::EditorDeleteWordForward => CommandDescriptor { id: "editor.delete_word_forward", title: "Delete Word Forward", description: "Delete one word forward." },
        CommandId::EditorUndo => CommandDescriptor { id: "editor.undo", title: "Undo", description: "Undo the most recent edit." },
        CommandId::EditorRedo => CommandDescriptor { id: "editor.redo", title: "Redo", description: "Redo the most recently undone edit." },
        CommandId::EditorSelectAll => CommandDescriptor { id: "editor.select_all", title: "Select All", description: "Select all content in the current editor." },
        CommandId::WorkspaceFocusPanel(target) => CommandDescriptor { id: focus_panel_id(target), title: focus_panel_title(target), description: focus_panel_description(target) },
        CommandId::WorkspaceTogglePanel(target) => CommandDescriptor { id: toggle_panel_id(target), title: toggle_panel_title(target), description: toggle_panel_description(target) },
        CommandId::WorkspaceOpenProjectPicker => CommandDescriptor { id: "workspace.open_project_picker", title: "Open Project Picker", description: "Open the project folder picker." },
        CommandId::WorkspaceOpenSettings => CommandDescriptor { id: "workspace.open_settings", title: "Open Settings", description: "Open application settings." },
        CommandId::WorkspaceOpenCodeActions => CommandDescriptor { id: "workspace.open_code_actions", title: "Open Code Actions", description: "Open the code actions menu." },
        CommandId::WorkspaceStartDebugging => CommandDescriptor { id: "workspace.start_debugging", title: "Start Debugging", description: "Start or continue debugging." },
        CommandId::WorkspaceFileTreeSelectPrev => CommandDescriptor { id: "workspace.file_tree.select_prev", title: "File Tree Select Previous", description: "Move file-tree selection to the previous visible node." },
        CommandId::WorkspaceFileTreeSelectNext => CommandDescriptor { id: "workspace.file_tree.select_next", title: "File Tree Select Next", description: "Move file-tree selection to the next visible node." },
        CommandId::WorkspaceFileTreeExpandOrDescend => CommandDescriptor { id: "workspace.file_tree.expand_or_descend", title: "File Tree Expand Or Descend", description: "Expand selected folder or descend into its first child." },
        CommandId::WorkspaceFileTreeCollapseOrAscend => CommandDescriptor { id: "workspace.file_tree.collapse_or_ascend", title: "File Tree Collapse Or Ascend", description: "Collapse selected folder or move selection to parent node." },
        CommandId::WorkspaceFileTreeActivateSelection => CommandDescriptor { id: "workspace.file_tree.activate_selection", title: "File Tree Activate Selection", description: "Activate selected file-tree node." },
        CommandId::WorkspaceTabCloseActive => CommandDescriptor { id: "workspace.tab.close_active", title: "Close Active Tab", description: "Close the currently active tab." },
        CommandId::WorkspaceTabActivatePrev => CommandDescriptor { id: "workspace.tab.activate_prev", title: "Activate Previous Tab", description: "Activate the previous tab." },
        CommandId::WorkspaceTabActivateNext => CommandDescriptor { id: "workspace.tab.activate_next", title: "Activate Next Tab", description: "Activate the next tab." },
    }
}

/// The description of a command.
pub fn command_descriptor(command: &Command) -> (d: CommandDescriptor)
    ensures d == descriptor_spec(command_id_spec(*command)),
{
    descriptor_for_id(command_id(command))
}

/// The default shortcuts of a command.
pub fn default_shortcuts(command: &Command) -> (v: Vec<CommandShortcut>)
    ensures v@ == shortcuts_spec(command_id_spec(*command)),
{
    default_shortcuts_for_id(command_id(command))
}

/// No modifier held.
pub open spec fn no_modifiers() -> Modifiers {
    Modifiers { has_ctrl: false, has_alt: false, has_shift: false, has_meta: false }
}

/// A key without modifiers.
pub open spec fn plain_spec(key: KeyCode) -> Keystroke {
    Keystroke { key, modifiers: no_modifiers() }
}

/// Cmd + a character.
pub open spec fn meta_char_spec(c: char) -> Keystroke {
    Keystroke { key: KeyCode::Char(c), modifiers: Modifiers { has_meta: true, ..no_modifiers() } }
}

/// Cmd + Shift + a character.
pub open spec fn meta_shift_char_spec(c: char) -> Keystroke {
    Keystroke { key: KeyCode::Char(c), modifiers: Modifiers { has_shift: true, has_meta: true, ..no_modifiers() } }
}

/// Ctrl + a character.
pub open spec fn ctrl_char_spec(c: char) -> Keystroke {
    Keystroke { key: KeyCode::Char(c), modifiers: Modifiers { has_ctrl: true, ..no_modifiers() } }
}

pub(crate) fn plain(key: KeyCode) -> (k: Keystroke)
    ensures k == plain_spec(key),
{
    Keystroke::new(key, Modifiers::new(false, false, false, false))
}

pub(crate) fn meta_char(c: char) -> (k: Keystroke)
    ensures k == meta_char_spec(c),
{
    Keystroke::new(KeyCode::Char(c), Modifiers::new(false, false, false, true))
}

pub(crate) fn meta_shift_char(c: char) -> (k: Keystroke)
    ensures k == meta_shift_char_spec(c),
{
    Keystroke::new(KeyCode::Char(c), Modifiers::new(false, false, true, true))
}

pub(crate) fn ctrl_char(c: char) -> (k: Keystroke)
    ensures k == ctrl_char_spec(c),
{
    Keystroke::new(KeyCode::Char(c), Modifiers::new(true, false, false, false))
}

/// A shortcut that always applies on every platform.
pub open spec fn shortcut_spec(scope: ShortcutScope, keystroke: Keystroke, priority: u8) -> CommandShortcut {
    CommandShortcut { scope, keystroke, when: ShortcutWhen::Always, platform: ShortcutPlatform::Any, priority }
}

/// A global shortcut.
pub open spec fn global(keystroke: Keystroke, priority: u8) -> Seq<CommandShortcut> {
    seq![shortcut_spec(ShortcutScope::Global, keystroke, priority)]
}

/// A shortcut scoped to the file tree panel.
pub open spec fn in_file_tree(key: KeyCode) -> Seq<CommandShortcut> {
    seq![shortcut_spec(ShortcutScope::Focus(FocusTarget::FileTreePanel), plain_spec(key), 110)]
}

/// The default shortcuts of each command id.
pub open spec fn shortcuts_spec(id: CommandId) -> Seq<CommandShortcut> {
    match id {
        CommandId::WorkspaceFocusPanel(FocusTarget::FileTreePanel) => global(meta_char_spec('b'), 100),
        CommandId::WorkspaceFocusPanel(FocusTarget::GitPanel) => global(meta_shift_char_spec('g'), 80),
        CommandId::WorkspaceFocusPanel(FocusTarget::OutlinePanel) => global(meta_shift_char_spec('o'), 80),
        CommandId::WorkspaceFocusPanel(FocusTarget::ProjectSearchPanel) => global(meta_shift_char_spec('f'), 80),
        CommandId::WorkspaceFocusPanel(FocusTarget::TerminalPanel) => global(ctrl_char_spec('`'), 80),
        CommandId::WorkspaceFocusPanel(FocusTarget::NotificationPanel) => global(meta_shift_char_spec('n'), 80),
        CommandId::WorkspaceOpenProjectPicker => global(meta_shift_char_spec('p'), 80),
        CommandId::WorkspaceOpenSettings => global(meta_char_spec(','), 80),
        CommandId::WorkspaceOpenCodeActions => global(meta_char_spec('.'), 80),
        CommandId::WorkspaceStartDebugging => global(plain_spec(KeyCode::F(5)), 80),
        CommandId::WorkspaceFileTreeSelectPrev => in_file_tree(KeyCode::Up),
        CommandId::WorkspaceFileTreeSelectNext => in_file_tree(KeyCode::Down),
        CommandId::WorkspaceFileTreeExpandOrDescend => in_file_tree(KeyCode::Right),
        CommandId::WorkspaceFileTreeCollapseOrAscend => in_file_tree(KeyCode::Left),
        CommandId::WorkspaceFileTreeActivateSelection => in_file_tree(KeyCode::Enter),
        CommandId::WorkspaceTogglePanel(target) => if spec_is_visibility_managed(target) {
            seq![shortcut_spec(ShortcutScope::Focus(target), meta_char_spec('w'), 120)]
        } else {
            seq![]
        },
        _ => seq![],
    }
}

fn global_shortcut(keystroke: Keystroke, priority: u8) -> (v: Vec<CommandShortcut>)
    ensures v@ == global(keystroke, priority),
{
    vec![CommandShortcut::new(ShortcutScope::Global, keystroke).with_priority(priority)]
}

fn file_tree_shortcut(key: KeyCode) -> (v: Vec<CommandShortcut>)
    ensures v@ == in_file_tree(key),
{
    vec![CommandShortcut::new(ShortcutScope::Focus(FocusTarget::FileTreePanel), plain(key)).with_priority(110)]
}

/// The default shortcuts of a command id.
pub(crate) fn default_shortcuts_for_id(id: CommandId) -> (v: Vec<CommandShortcut>)
    ensures v@ == shortcuts_spec(id),
{
    match id {
        CommandId::WorkspaceFocusPanel(FocusTarget::FileTreePanel) => global_shortcut(meta_char('b'), 100),
        CommandId::WorkspaceFocusPanel(FocusTarget::GitPanel) => global_shortcut(meta_shift_char('g'), 80),
        CommandId::WorkspaceFocusPanel(FocusTarget::OutlinePanel) => global_shortcut(meta_shift_char('o'), 80),
        CommandId::WorkspaceFocusPanel(FocusTarget::ProjectSearchPanel) => global_shortcut(meta_shift_char('f'), 80),
        CommandId::WorkspaceFocusPanel(FocusTarget::TerminalPanel) => global_shortcut(ctrl_char('`'), 80),
        CommandId::WorkspaceFocusPanel(FocusTarget::NotificationPanel) => global_shortcut(meta_shift_char('n'), 80),
        CommandId::WorkspaceOpenProjectPicker => global_shortcut(meta_shift_char('p'), 80),
        CommandId::WorkspaceOpenSettings => global_shortcut(meta_char(','), 80),
        CommandId::WorkspaceOpenCodeActions => global_shortcut(meta_char('.'), 80),
        CommandId::WorkspaceStartDebugging => global_shortcut(plain(KeyCode::F(5)), 80),
        CommandId::WorkspaceFileTreeSelectPrev => file_tree_shortcut(KeyCode::Up),
        CommandId::WorkspaceFileTreeSelectNext => file_tree_shortcut(KeyCode::Down),
        CommandId::WorkspaceFileTreeExpandOrDescend => file_tree_shortcut(KeyCode::Right),
        CommandId::WorkspaceFileTreeCollapseOrAscend => file_tree_shortcut(KeyCode::Left),
        CommandId::WorkspaceFileTreeActivateSelection => file_tree_shortcut(KeyCode::Enter),
        CommandId::WorkspaceTogglePanel(target) => if target.is_visibility_managed_panel() {
            vec![CommandShortcut::new(ShortcutScope::Focus(target), meta_char('w')).with_priority(120)]
        } else {
            Vec::new()
        },
        _ => Vec::new(),
    }
}

/// Every command id of the catalog, in order: the payload-free commands,
/// then focusing each target, then toggling each target.
pub open spec fn all_ids_spec() -> Seq<CommandId> {
    seq![CommandId::EditorInsertText, CommandId::EditorInsertNewline, CommandId::EditorMoveLeft, CommandId::EditorMoveRight, CommandId::EditorMoveUp, CommandId::EditorMoveDown, CommandId::EditorMoveToStart, CommandId::EditorMoveToEnd, CommandId::EditorMovePageUp, CommandId::EditorMovePageDown, CommandId::EditorDeleteBackward, CommandId::EditorDeleteForward, CommandId::EditorDeleteWordBackward, CommandId::EditorDeleteWordForward, CommandId::EditorUndo, CommandId::EditorRedo, CommandId::EditorSelectAll, CommandId::WorkspaceOpenProjectPicker, CommandId::WorkspaceOpenSettings, CommandId::WorkspaceOpenCodeActions, CommandId::WorkspaceStartDebugging, CommandId::WorkspaceFileTreeSelectPrev, CommandId::WorkspaceFileTreeSelectNext, CommandId::WorkspaceFileTreeExpandOrDescend, CommandId::WorkspaceFileTreeCollapseOrAscend, CommandId::WorkspaceFileTreeActivateSelection, CommandId::WorkspaceTabCloseActive, CommandId::WorkspaceTabActivatePrev, CommandId::WorkspaceTabActivateNext]
        + spec_all_targets().map_values(|t: FocusTarget| CommandId::WorkspaceFocusPanel(t))
        + spec_all_targets().map_values(|t: FocusTarget| CommandId::WorkspaceTogglePanel(t))
}

/// Every command id of the catalog.
pub(crate) fn all_command_ids() -> (v: Vec<CommandId>)
    ensures v@ == all_ids_spec(),
{
    let mut ids: Vec<CommandId> = vec![CommandId::EditorInsertText, CommandId::EditorInsertNewline, CommandId::EditorMoveLeft, CommandId::EditorMoveRight, CommandId::EditorMoveUp, CommandId::EditorMoveDown, CommandId::EditorMoveToStart, CommandId::EditorMoveToEnd, CommandId::EditorMovePageUp, CommandId::EditorMovePageDown, CommandId::EditorDeleteBackward, CommandId::EditorDeleteForward, CommandId::EditorDeleteWordBackward, CommandId::EditorDeleteWordForward, CommandId::EditorUndo, CommandId::EditorRedo, CommandId::EditorSelectAll, CommandId::WorkspaceOpenProjectPicker, CommandId::WorkspaceOpenSettings, CommandId::WorkspaceOpenCodeActions, CommandId::WorkspaceStartDebugging, CommandId::WorkspaceFileTreeSelectPrev, CommandId::WorkspaceFileTreeSelectNext, CommandId::WorkspaceFileTreeExpandOrDescend, CommandId::WorkspaceFileTreeCollapseOrAscend, CommandId::WorkspaceFileTreeActivateSelection, CommandId::WorkspaceTabCloseActive, CommandId::WorkspaceTabActivatePrev, CommandId::WorkspaceTabActivateNext];
    let ghost head = ids@;
    let targets = FocusTarget::all();
    let mut i: usize = 0;
    while i < targets.len()
        invariant
            targets@ == spec_all_targets(),
            i <= targets@.len(),
            ids@ == head + targets@.take(i as int).map_values(|t: FocusTarget| CommandId::WorkspaceFocusPanel(t)),
        decreases targets@.len() - i,
    {
        ids.push(CommandId::WorkspaceFocusPanel(targets[i]));
        proof {
            assert(targets@.take(i + 1).map_values(|t: FocusTarget| CommandId::WorkspaceFocusPanel(t))
                =~= targets@.take(i as int).map_values(|t: FocusTarget| CommandId::WorkspaceFocusPanel(t))
                    .push(CommandId::WorkspaceFocusPanel(targets@[i as int])));
        }
        i = i + 1;
    }
    proof { assert(targets@.take(targets@.len() as int) =~= targets@); }
    let ghost mid = ids@;
    let mut j: usize = 0;
    while j < targets.len()
        invariant
            targets@ == spec_all_targets(),
            j <= targets@.len(),
            ids@ == mid + targets@.take(j as int).map_values(|t: FocusTarget| CommandId::WorkspaceTogglePanel(t)),
        decreases targets@.len() - j,
    {
        ids.push(CommandId::WorkspaceTogglePanel(targets[j]));
        proof {
            assert(targets@.take(j + 1).map_values(|t: FocusTarget| CommandId::WorkspaceTogglePanel(t))
                =~= targets@.take(j as int).map_values(|t: FocusTarget| CommandId::WorkspaceTogglePanel(t))
                    .push(CommandId::WorkspaceTogglePanel(targets@[j as int])));
        }
        j = j + 1;
    }
    proof { assert(targets@.take(targets@.len() as int) =~= targets@); }
    ids
}

/// The catalog: one entry per command id, in the order of `all_ids_spec`.
pub fn command_catalog() -> (v: Vec<CommandCatalogEntry>)
    ensures
        v@.len() == all_ids_spec().len(),
        forall|i: int| 0 <= i < v@.len() ==> {
            &&& (#[trigger] v@[i]).id == all_ids_spec()[i]
            &&& v@[i].descriptor == descriptor_spec(all_ids_spec()[i])
            &&& v@[i].default_shortcuts@ == shortcuts_spec(all_ids_spec()[i])
        },
{
    let ids = all_command_ids();
    let mut entries: Vec<CommandCatalogEntry> = Vec::new();
    let mut i: usize = 0;
    while i < ids.len()
        invariant
            ids@ == all_ids_spec(),
            i <= ids@.len(),
            entries@.len() == i,
            forall|k: int| 0 <= k < i ==> {
                &&& (#[trigger] entries@[k]).id == ids@[k]
                &&& entries@[k].descriptor == descriptor_spec(ids@[k])
                &&& entries@[k].default_shortcuts@ == shortcuts_spec(ids@[k])
            },
        decreases ids@.len() - i,
    {
        let id = ids[i];
        entries.push(CommandCatalogEntry {
            id,
            descriptor: descriptor_for_id(id),
            default_shortcuts: default_shortcuts_for_id(id),
        });
        i = i + 1;
    }
    entries
}

/// The commands whose default shortcuts are bound, in order.
pub open spec fn bound_commands_spec() -> Seq<Command> {
    seq![
        Command::Workspace(WorkspaceCommand::FocusPanel(FocusTarget::FileTreePanel)),
        Command::Workspace(WorkspaceCommand::FocusPanel(FocusTarget::GitPanel)),
        Command::Workspace(WorkspaceCommand::FocusPanel(FocusTarget::OutlinePanel)),
        Command::Workspace(WorkspaceCommand::FocusPanel(FocusTarget::ProjectSearchPanel)),
        Command::Workspace(WorkspaceCommand::FocusPanel(FocusTarget::TerminalPanel)),
        Command::Workspace(WorkspaceCommand::OpenProjectPicker),
        Command::Workspace(WorkspaceCommand::OpenSettings),
        Command::Workspace(WorkspaceCommand::OpenCodeActions),
        Command::Workspace(WorkspaceCommand::StartDebugging),
        Command::Workspace(WorkspaceCommand::FocusPanel(FocusTarget::NotificationPanel)),
        Command::Workspace(WorkspaceCommand::FileTree(FileTreeCommand::SelectPrev)),
        Command::Workspace(WorkspaceCommand::FileTree(FileTreeCommand::SelectNext)),
        Command::Workspace(WorkspaceCommand::FileTree(FileTreeCommand::ExpandOrDescend)),
        Command::Workspace(WorkspaceCommand::FileTree(FileTreeCommand::CollapseOrAscend)),
        Command::Workspace(WorkspaceCommand::FileTree(FileTreeCommand::ActivateSelection)),
    ] + spec_managed_panels().map_values(|t: FocusTarget| Command::Workspace(WorkspaceCommand::TogglePanel(t)))
}

/// A binding as a plain pair.
pub open spec fn binding_view(b: DefaultShortcutBinding) -> (Command, CommandShortcut) {
    (b.command, b.shortcut)
}

/// Each command paired with each of its default shortcuts, in order.
pub open spec fn bindings_for(cmds: Seq<Command>) -> Seq<(Command, CommandShortcut)>
    decreases cmds.len(),
{
    if cmds.len() == 0 {
        seq![]
    } else {
        let c = cmds.last();
        bindings_for(cmds.drop_last())
            + shortcuts_spec(command_id_spec(c)).map_values(|s: CommandShortcut| (c, s))
    }
}

/// Appends a command's default shortcuts as bindings.
fn push_bindings(bindings: &mut Vec<DefaultShortcutBinding>, command: &Command)
    ensures
        final(bindings)@.map_values(|b: DefaultShortcutBinding| binding_view(b))
            == old(bindings)@.map_values(|b: DefaultShortcutBinding| binding_view(b))
                + shortcuts_spec(command_id_spec(*command)).map_values(|s: CommandShortcut| (*command, s)),
{
    let shortcuts = default_shortcuts(command);
    let ghost start = bindings@.map_values(|b: DefaultShortcutBinding| binding_view(b));
    let ghost mapped = shortcuts@.map_values(|s: CommandShortcut| (*command, s));
    let mut j: usize = 0;
    while j < shortcuts.len()
        invariant
            j <= shortcuts@.len(),
            mapped == shortcuts@.map_values(|s: CommandShortcut| (*command, s)),
            bindings@.map_values(|b: DefaultShortcutBinding| binding_view(b)) == start + mapped.take(j as int),
        decreases shortcuts@.len() - j,
    {
        let ghost before = bindings@;
        bindings.push(DefaultShortcutBinding { command: command.clone(), shortcut: shortcuts[j] });
        proof {
            assert(bindings@.map_values(|b: DefaultShortcutBinding| binding_view(b))
                =~= before.map_values(|b: DefaultShortcutBinding| binding_view(b)).push((*command, shortcuts@[j as int])));
            assert(mapped.take(j + 1) =~= mapped.take(j as int).push(mapped[j as int]));
        }
        j = j + 1;
    }
    proof { assert(mapped.take(shortcuts@.len() as int) =~= mapped); }
}

/// The default shortcut bindings, for the input layer: the default shortcuts
/// of the bound commands, then the close shortcut of every managed panel.
pub fn default_shortcut_bindings() -> (v: Vec<DefaultShortcutBinding>)
    ensures v@.map_values(|b: DefaultShortcutBinding| binding_view(b)) == bindings_for(bound_commands_spec()),
{
    let mut commands: Vec<Command> = vec![
        Command::Workspace(WorkspaceCommand::FocusPanel(FocusTarget::FileTreePanel)),
        Command::Workspace(WorkspaceCommand::FocusPanel(FocusTarget::GitPanel)),
        Command::Workspace(WorkspaceCommand::FocusPanel(FocusTarget::OutlinePanel)),
        Command::Workspace(WorkspaceCommand::FocusPanel(FocusTarget::ProjectSearchPanel)),
        Command::Workspace(WorkspaceCommand::FocusPanel(FocusTarget::TerminalPanel)),
        Command::Workspace(WorkspaceCommand::OpenProjectPicker),
        Command::Workspace(WorkspaceCommand::OpenSettings),
        Command::Workspace(WorkspaceCommand::OpenCodeActions),
        Command::Workspace(WorkspaceCommand::StartDebugging),
        Command::Workspace(WorkspaceCommand::FocusPanel(FocusTarget::NotificationPanel)),
        Command::Workspace(WorkspaceCommand::FileTree(FileTreeCommand::SelectPrev)),
        Command::Workspace(WorkspaceCommand::FileTree(FileTreeCommand::SelectNext)),
        Command::Workspace(WorkspaceCommand::FileTree(FileTreeCommand::ExpandOrDescend)),
        Command::Workspace(WorkspaceCommand::FileTree(FileTreeCommand::CollapseOrAscend)),
        Command::Workspace(WorkspaceCommand::FileTree(FileTreeCommand::ActivateSelection)),
    ];
    let ghost head = commands@;
    let panels = FocusTarget::visibility_managed_panels();
    let mut p: usize = 0;
    while p < panels.len()
        invariant
            panels@ == spec_managed_panels(),
            p <= panels@.len(),
            commands@ == head + panels@.take(p as int).map_values(|t: FocusTarget| Command::Workspace(WorkspaceCommand::TogglePanel(t))),
        decreases panels@.len() - p,
    {
        commands.push(Command::Workspace(WorkspaceCommand::TogglePanel(panels[p])));
        proof {
            assert(panels@.take(p + 1).map_values(|t: FocusTarget| Command::Workspace(WorkspaceCommand::TogglePanel(t)))
                =~= panels@.take(p as int).map_values(|t: FocusTarget| Command::Workspace(WorkspaceCommand::TogglePanel(t)))
                    .push(Command::Workspace(WorkspaceCommand::TogglePanel(panels@[p as int]))));
        }
        p = p + 1;
    }
    proof {
        assert(panels@.take(panels@.len() as int) =~= panels@);
        assert(commands@ =~= bound_commands_spec());
    }
    let mut bindings: Vec<DefaultShortcutBinding> = Vec::new();
    let mut i: usize = 0;
    proof { assert(bindings@.map_values(|b: DefaultShortcutBinding| binding_view(b)) =~= bindings_for(commands@.take(0))); }
    while i < commands.len()
        invariant
            commands@ == bound_commands_spec(),
            i <= commands@.len(),
            bindings@.map_values(|b: DefaultShortcutBinding| binding_view(b)) == bindings_for(commands@.take(i as int)),
        decreases commands@.len() - i,
    {
        push_bindings(&mut bindings, &commands[i]);
        proof {
            assert(commands@.take(i + 1).drop_last() =~= commands@.take(i as int));
            assert(commands@.take(i + 1).last() == commands@[i as int]);
        }
        i = i + 1;
    }
    proof { assert(commands@.take(commands@.len() as int) =~= commands@); }
    bindings
}

} // verus!
