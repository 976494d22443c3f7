//! Command invocations: what to execute now, possibly with a payload.

use vstd::prelude::*;

use crate::focus::FocusTarget;

verus! {

/// Editor actions that carry no payload.
#[derive(Debug, Clone, Copy, PartialEq, Eq, Structural, Hash)]
pub enum EditorAction {
    InsertNewline,
    InsertIndent,
    Outdent,
    MoveLeft,
    MoveRight,
    MoveUp,
    MoveDown,
    MoveToStart,
    MoveToEnd,
    MovePageUp,
    MovePageDown,
    SelectLeft,
    SelectRight,
    SelectUp,
    SelectDown,
    SelectToStart,
    SelectToEnd,
    SelectPageUp,
    SelectPageDown,
    DeleteBackward,
    DeleteForward,
    DeleteWordBackward,
    DeleteWordForward,
    SelectAll,
    OpenFindReplace,
    FindPrev,
    FindNext,
    ReplaceNext,
    ReplaceAll,
    ToggleFindCaseSensitive,
    ToggleFindWholeWord,
    ToggleFindRegex,
    Copy,
    Cut,
    Paste,
    Undo,
    Redo,
}

/// What a find / replace request does.
#[derive(Debug, Clone, Copy, PartialEq, Eq, Structural, Hash)]
pub enum FindReplaceAction {
    /// Select the next match at or after the caret (wrapping around).
    FindNext,
    /// Select the previous match ending at or before the caret (wrapping around).
    FindPrev,
    /// Replace the next match at or after the caret (wrapping around).
    ReplaceNext,
    /// Replace every match.
    ReplaceAll,
}

/// A find / replace request.
#[derive(Debug, PartialEq, Eq, Hash)]
pub struct FindReplaceRequest {
    /// The text or pattern to find.
    pub query: String,
    /// The replacement text (a capture template in regex mode).
    pub replacement: String,
    /// What to do.
    pub action: FindReplaceAction,
    /// Whether matching is case sensitive.
    pub case_sensitive: bool,
    /// Whether only whole words match.
    pub whole_word: bool,
    /// Whether the query is a regular expression.
    pub use_regex: bool,
}

impl FindReplaceRequest {
    /// Builds a request.
    pub fn new(query: &str, replacement: &str, action: FindReplaceAction, case_sensitive: bool,
        whole_word: bool, use_regex: bool) -> (r: Self)
        ensures
            r.query@ == query@,
            r.replacement@ == replacement@,
            r.action == action,
            r.case_sensitive == case_sensitive,
            r.whole_word == whole_word,
            r.use_regex == use_regex,
    {
        FindReplaceRequest {
            query: query.to_owned(),
            replacement: replacement.to_owned(),
            action,
            case_sensitive,
            whole_word,
            use_regex,
        }
    }
}

impl Clone for FindReplaceRequest {
    fn clone(&self) -> (r: Self)
        ensures r == *self,
    {
        FindReplaceRequest {
            query: self.query.clone(),
            replacement: self.replacement.clone(),
            action: self.action,
            case_sensitive: self.case_sensitive,
            whole_word: self.whole_word,
            use_regex: self.use_regex,
        }
    }
}

/// An editor invocation.
#[derive(Debug, PartialEq, Eq, Hash)]
pub enum EditorInvocation {
    /// Insert text at the caret (replacing the selection).
    InsertText { text: String },
    /// Run a find / replace request.
    FindReplace { request: FindReplaceRequest },
    /// Run a payload-free action.
    Action(EditorAction),
}

impl Clone for EditorInvocation {
    fn clone(&self) -> (r: Self)
        ensures r == *self,
    {
        match self {
            EditorInvocation::InsertText { text } => EditorInvocation::InsertText { text: text.clone() },
            EditorInvocation::FindReplace { request } => EditorInvocation::FindReplace { request: request.clone() },
            EditorInvocation::Action(action) => EditorInvocation::Action(*action),
        }
    }
}

impl EditorInvocation {
    /// An invocation inserting `text`.
    pub fn insert_text(text: &str) -> (r: Self)
        ensures r matches EditorInvocation::InsertText { text: t } && t@ == text@,
    {
        EditorInvocation::InsertText { text: text.to_owned() }
    }

    /// An invocation running a find / replace request.
    pub fn find_replace(request: FindReplaceRequest) -> (r: Self)
        ensures r == (EditorInvocation::FindReplace { request }),
    {
        EditorInvocation::FindReplace { request }
    }
}

impl From<EditorAction> for EditorInvocation {
    fn from(action: EditorAction) -> (r: Self)
        ensures r == (EditorInvocation::Action(action)),
    {
        EditorInvocation::Action(action)
    }
}

impl vstd::std_specs::convert::FromSpecImpl<EditorAction> for EditorInvocation {
    open spec fn obeys_from_spec() -> bool {
        true
    }

    open spec fn from_spec(action: EditorAction) -> EditorInvocation {
        EditorInvocation::Action(action)
    }
}

/// Tab actions.
#[derive(Debug, Clone, Copy, PartialEq, Eq, Structural, Hash)]
pub enum TabAction {
    /// Close the active tab.
    CloseActiveTab,
    /// Activate the previous tab.
    ActivatePrevTab,
    /// Activate the next tab.
    ActivateNextTab,
}

/// File tree actions.
#[derive(Debug, Clone, Copy, PartialEq, Eq, Structural, Hash)]
pub enum FileTreeAction {
    /// Select the previous visible node.
    SelectPrev,
    /// Select the next visible node.
    SelectNext,
    /// Expand a directory, or descend into an expanded one.
    ExpandOrDescend,
    /// Collapse a directory, or go up to the parent.
    CollapseOrAscend,
    /// Activate the selected node.
    ActivateSelection,
}

/// Overlays that can take the focus.
#[derive(Debug, Clone, Copy, PartialEq, Eq, Structural, Hash)]
pub enum OverlayTarget {
    /// The settings overlay.
    Settings,
}

/// Workbench actions.
#[derive(Debug, Clone, Copy, PartialEq, Eq, Structural, Hash)]
pub enum WorkspaceAction {
    /// Show and focus a panel.
    FocusPanel(FocusTarget),
    /// Show and focus an overlay.
    FocusOverlay(OverlayTarget),
    /// Close the focused component (panel or tab).
    CloseFocused,
    /// Open the project folder picker.
    OpenProjectPicker,
    /// Open the settings.
    OpenSettings,
    /// A file tree action.
    FileTree(FileTreeAction),
    /// A tab action.
    Tab(TabAction),
    /// Open the code actions menu.
    OpenCodeActions,
    /// Start debugging.
    StartDebugging,
}

impl From<FileTreeAction> for WorkspaceAction {
    fn from(action: FileTreeAction) -> (r: Self)
        ensures r == (WorkspaceAction::FileTree(action)),
    {
        WorkspaceAction::FileTree(action)
    }
}

impl vstd::std_specs::convert::FromSpecImpl<FileTreeAction> for WorkspaceAction {
    open spec fn obeys_from_spec() -> bool {
        true
    }

    open spec fn from_spec(action: FileTreeAction) -> WorkspaceAction {
        WorkspaceAction::FileTree(action)
    }
}

impl From<TabAction> for WorkspaceAction {
    fn from(action: TabAction) -> (r: Self)
        ensures r == (WorkspaceAction::Tab(action)),
    {
        WorkspaceAction::Tab(action)
    }
}

impl vstd::std_specs::convert::FromSpecImpl<TabAction> for WorkspaceAction {
    open spec fn obeys_from_spec() -> bool {
        true
    }

    open spec fn from_spec(action: TabAction) -> WorkspaceAction {
        WorkspaceAction::Tab(action)
    }
}

/// A command invocation shared across the system.
#[derive(Debug, PartialEq, Eq, Hash)]
pub enum CommandInvocation {
    /// An editor invocation.
    Editor(EditorInvocation),
    /// A workbench invocation.
    Workspace(WorkspaceAction),
}

impl Clone for CommandInvocation {
    fn clone(&self) -> (r: Self)
        ensures r == *self,
    {
        match self {
            CommandInvocation::Editor(invocation) => CommandInvocation::Editor(invocation.clone()),
            CommandInvocation::Workspace(action) => CommandInvocation::Workspace(*action),
        }
    }
}

impl CommandInvocation {
    /// Whether the invocation targets the editor.
    pub fn is_editor(&self) -> (b: bool)
        ensures b == (*self is Editor),
    {
        match self {
            CommandInvocation::Editor(_) => true,
            _ => false,
        }
    }

    /// Whether the invocation targets the workbench.
    pub fn is_workspace(&self) -> (b: bool)
        ensures b == (*self is Workspace),
    {
        match self {
            CommandInvocation::Workspace(_) => true,
            _ => false,
        }
    }
}

impl From<EditorInvocation> for CommandInvocation {
    fn from(invocation: EditorInvocation) -> (r: Self)
        ensures r == (CommandInvocation::Editor(invocation)),
    {
        CommandInvocation::Editor(invocation)
    }
}

impl vstd::std_specs::convert::FromSpecImpl<EditorInvocation> for CommandInvocation {
    open spec fn obeys_from_spec() -> bool {
        true
    }

    open spec fn from_spec(invocation: EditorInvocation) -> CommandInvocation {
        CommandInvocation::Editor(invocation)
    }
}

impl From<EditorAction> for CommandInvocation {
    fn from(action: EditorAction) -> (r: Self)
        ensures r == (CommandInvocation::Editor(EditorInvocation::Action(action))),
    {
        CommandInvocation::Editor(EditorInvocation::Action(action))
    }
}

impl vstd::std_specs::convert::FromSpecImpl<EditorAction> for CommandInvocation {
    open spec fn obeys_from_spec() -> bool {
        true
    }

    open spec fn from_spec(action: EditorAction) -> CommandInvocation {
        CommandInvocation::Editor(EditorInvocation::Action(action))
    }
}

impl From<WorkspaceAction> for CommandInvocation {
    fn from(action: WorkspaceAction) -> (r: Self)
        ensures r == (CommandInvocation::Workspace(action)),
    {
        CommandInvocation::Workspace(action)
    }
}

impl vstd::std_specs::convert::FromSpecImpl<WorkspaceAction> for CommandInvocation {
    open spec fn obeys_from_spec() -> bool {
        true
    }

    open spec fn from_spec(action: WorkspaceAction) -> CommandInvocation {
        CommandInvocation::Workspace(action)
    }
}

impl From<FileTreeAction> for CommandInvocation {
    fn from(action: FileTreeAction) -> (r: Self)
        ensures r == (CommandInvocation::Workspace(WorkspaceAction::FileTree(action))),
    {
        CommandInvocation::Workspace(WorkspaceAction::FileTree(action))
    }
}

impl vstd::std_specs::convert::FromSpecImpl<FileTreeAction> for CommandInvocation {
    open spec fn obeys_from_spec() -> bool {
        true
    }

    open spec fn from_spec(action: FileTreeAction) -> CommandInvocation {
        CommandInvocation::Workspace(WorkspaceAction::FileTree(action))
    }
}

impl From<TabAction> for CommandInvocation {
    fn from(action: TabAction) -> (r: Self)
        ensures r == (CommandInvocation::Workspace(WorkspaceAction::Tab(action))),
    {
        CommandInvocation::Workspace(WorkspaceAction::Tab(action))
    }
}

impl vstd::std_specs::convert::FromSpecImpl<TabAction> for CommandInvocation {
    open spec fn obeys_from_spec() -> bool {
        true
    }

    open spec fn from_spec(action: TabAction) -> CommandInvocation {
        CommandInvocation::Workspace(WorkspaceAction::Tab(action))
    }
}

/// Whether two invocations ask for the same thing: texts and patterns
/// compare by their characters, everything else by value.
pub open spec fn same_invocation(a: CommandInvocation, b: CommandInvocation) -> bool {
    match (a, b) {
        (CommandInvocation::Editor(EditorInvocation::InsertText { text: x }),
            CommandInvocation::Editor(EditorInvocation::InsertText { text: y })) => x@ == y@,
        (CommandInvocation::Editor(EditorInvocation::FindReplace { request: x }),
            CommandInvocation::Editor(EditorInvocation::FindReplace { request: y })) => {
            &&& x.query@ == y.query@
            &&& x.replacement@ == y.replacement@
            &&& x.action == y.action
            &&& x.case_sensitive == y.case_sensitive
            &&& x.whole_word == y.whole_word
            &&& x.use_regex == y.use_regex
        },
        _ => a == b,
    }
}

/// Whether two invocations ask for the same thing.
pub fn is_same_invocation(a: &CommandInvocation, b: &CommandInvocation) -> (r: bool)
    ensures r == same_invocation(*a, *b),
{
    match (a, b) {
        (CommandInvocation::Editor(EditorInvocation::InsertText { text: x }),
            CommandInvocation::Editor(EditorInvocation::InsertText { text: y })) => *x == *y,
        (CommandInvocation::Editor(EditorInvocation::FindReplace { request: x }),
            CommandInvocation::Editor(EditorInvocation::FindReplace { request: y })) => {
            x.query == y.query && x.replacement == y.replacement && x.action == y.action
                && x.case_sensitive == y.case_sensitive && x.whole_word == y.whole_word
                && x.use_regex == y.use_regex
        },
        (CommandInvocation::Editor(EditorInvocation::Action(x)),
            CommandInvocation::Editor(EditorInvocation::Action(y))) => *x == *y,
        (CommandInvocation::Workspace(x), CommandInvocation::Workspace(y)) => *x == *y,
        _ => false,
    }
}

} // verus!
