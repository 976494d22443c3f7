//! The command table keyed by `CommandKey`: one declaration per command of
//! the catalog, with its string id, description, default shortcuts, and the
//! command it builds when the command needs no payload.

use vstd::prelude::*;

use crate::focus::FocusTarget;

use super::catalog;
use super::catalog::{
    all_ids_spec, command_id, command_id_spec, default_shortcuts_for_id, descriptor_for_id, descriptor_spec,
    shortcuts_spec, Command, CommandShortcut, EditorCommand, FileTreeCommand, TabCommand, WorkspaceCommand,
};

verus! {

/// Stable semantic keys of commands.
#[derive(Debug, Clone, Copy, PartialEq, Eq, Structural, Hash)]
pub enum CommandKey {
    EditorInsertText,
    EditorInsertNewline,
    EditorMoveLeft,
    EditorMoveRight,
    EditorMoveUp,
    EditorMoveDown,
    EditorMoveToStart,
    EditorMoveToEnd,
    EditorMovePageUp,
    EditorMovePageDown,
    EditorDeleteBackward,
    EditorDeleteForward,
    EditorDeleteWordBackward,
    EditorDeleteWordForward,
    EditorUndo,
    EditorRedo,
    EditorSelectAll,
    WorkspaceFocusPanel(FocusTarget),
    WorkspaceTogglePanel(FocusTarget),
    WorkspaceCloseFocused,
    WorkspaceOpenProjectPicker,
    WorkspaceOpenSettings,
    WorkspaceOpenCodeActions,
    WorkspaceStartDebugging,
    WorkspaceFileTreeSelectPrev,
    WorkspaceFileTreeSelectNext,
    WorkspaceFileTreeExpandOrDescend,
    WorkspaceFileTreeCollapseOrAscend,
    WorkspaceFileTreeActivateSelection,
    WorkspaceTabCloseActive,
    WorkspaceTabActivatePrev,
    WorkspaceTabActivateNext,
}

/// The stable string id of a command.
#[derive(Debug, Clone, Copy, PartialEq, Eq, Hash)]
pub struct CommandId(pub &'static str);

/// Descriptive metadata of a command.
#[derive(Debug, Clone, Copy, PartialEq, Eq, Hash)]
pub struct CommandMeta {
    /// Stable id.
    pub id: CommandId,
    /// Short title.
    pub title: &'static str,
    /// What the command does.
    pub description: &'static str,
}

/// The declaration of one command.
#[derive(Debug, PartialEq, Eq)]
pub struct CommandSpec {
    /// The key.
    pub key: CommandKey,
    /// Its metadata.
    pub meta: CommandMeta,
    /// The command it stands for, when that needs no payload.
    pub command: Option<Command>,
    /// Its default shortcuts (possibly none).
    pub default_shortcuts: Vec<CommandShortcut>,
}

impl CommandSpec {
    /// A declaration.
    pub fn new(key: CommandKey, id: &'static str, title: &'static str, description: &'static str,
        command: Option<Command>, default_shortcuts: Vec<CommandShortcut>) -> (s: Self)
        ensures
            s.key == key,
            s.meta == (CommandMeta { id: CommandId(id), title, description }),
            s.command == command,
            s.default_shortcuts == default_shortcuts,
    {
        CommandSpec { key, meta: CommandMeta { id: CommandId(id), title, description }, command, default_shortcuts }
    }
}

/// The key of a catalog id.
pub open spec fn key_of(id: catalog::CommandId) -> CommandKey {
    match id {
        catalog::CommandId::EditorInsertText => CommandKey::EditorInsertText,
        catalog::CommandId::EditorInsertNewline => CommandKey::EditorInsertNewline,
        catalog::CommandId::EditorMoveLeft => CommandKey::EditorMoveLeft,
        catalog::CommandId::EditorMoveRight => CommandKey::EditorMoveRight,
        catalog::CommandId::EditorMoveUp => CommandKey::EditorMoveUp,
        catalog::CommandId::EditorMoveDown => CommandKey::EditorMoveDown,
        catalog::CommandId::EditorMoveToStart => CommandKey::EditorMoveToStart,
        catalog::CommandId::EditorMoveToEnd => CommandKey::EditorMoveToEnd,
        catalog::CommandId::EditorMovePageUp => CommandKey::EditorMovePageUp,
        catalog::CommandId::EditorMovePageDown => CommandKey::EditorMovePageDown,
        catalog::CommandId::EditorDeleteBackward => CommandKey::EditorDeleteBackward,
        catalog::CommandId::EditorDeleteForward => CommandKey::EditorDeleteForward,
        catalog::CommandId::EditorDeleteWordBackward => CommandKey::EditorDeleteWordBackward,
        catalog::CommandId::EditorDeleteWordForward => CommandKey::EditorDeleteWordForward,
        catalog::CommandId::EditorUndo => CommandKey::EditorUndo,
        catalog::CommandId::EditorRedo => CommandKey::EditorRedo,
        catalog::CommandId::EditorSelectAll => CommandKey::EditorSelectAll,
        catalog::CommandId::WorkspaceFocusPanel(t) => CommandKey::WorkspaceFocusPanel(t),
        catalog::CommandId::WorkspaceTogglePanel(t) => CommandKey::WorkspaceTogglePanel(t),
        catalog::CommandId::WorkspaceOpenProjectPicker => CommandKey::WorkspaceOpenProjectPicker,
        catalog::CommandId::WorkspaceOpenSettings => CommandKey::WorkspaceOpenSettings,
        catalog::CommandId::WorkspaceOpenCodeActions => CommandKey::WorkspaceOpenCodeActions,
        catalog::CommandId::WorkspaceStartDebugging => CommandKey::WorkspaceStartDebugging,
        catalog::CommandId::WorkspaceFileTreeSelectPrev => CommandKey::WorkspaceFileTreeSelectPrev,
        catalog::CommandId::WorkspaceFileTreeSelectNext => CommandKey::WorkspaceFileTreeSelectNext,
        catalog::CommandId::WorkspaceFileTreeExpandOrDescend => CommandKey::WorkspaceFileTreeExpandOrDescend,
        catalog::CommandId::WorkspaceFileTreeCollapseOrAscend => CommandKey::WorkspaceFileTreeCollapseOrAscend,
        catalog::CommandId::WorkspaceFileTreeActivateSelection => CommandKey::WorkspaceFileTreeActivateSelection,
        catalog::CommandId::WorkspaceTabCloseActive => CommandKey::WorkspaceTabCloseActive,
        catalog::CommandId::WorkspaceTabActivatePrev => CommandKey::WorkspaceTabActivatePrev,
        catalog::CommandId::WorkspaceTabActivateNext => CommandKey::WorkspaceTabActivateNext,
    }
}

/// The catalog id of a key; closing the focused component has none.
pub open spec fn id_of_key(k: CommandKey) -> Option<catalog::CommandId> {
    match k {
        CommandKey::EditorInsertText => Some(catalog::CommandId::EditorInsertText),
        CommandKey::EditorInsertNewline => Some(catalog::CommandId::EditorInsertNewline),
        CommandKey::EditorMoveLeft => Some(catalog::CommandId::EditorMoveLeft),
        CommandKey::EditorMoveRight => Some(catalog::CommandId::EditorMoveRight),
        CommandKey::EditorMoveUp => Some(catalog::CommandId::EditorMoveUp),
        CommandKey::EditorMoveDown => Some(catalog::CommandId::EditorMoveDown),
        CommandKey::EditorMoveToStart => Some(catalog::CommandId::EditorMoveToStart),
        CommandKey::EditorMoveToEnd => Some(catalog::CommandId::EditorMoveToEnd),
        CommandKey::EditorMovePageUp => Some(catalog::CommandId::EditorMovePageUp),
        CommandKey::EditorMovePageDown => Some(catalog::CommandId::EditorMovePageDown),
        CommandKey::EditorDeleteBackward => Some(catalog::CommandId::EditorDeleteBackward),
        CommandKey::EditorDeleteForward => Some(catalog::CommandId::EditorDeleteForward),
        CommandKey::EditorDeleteWordBackward => Some(catalog::CommandId::EditorDeleteWordBackward),
        CommandKey::EditorDeleteWordForward => Some(catalog::CommandId::EditorDeleteWordForward),
        CommandKey::EditorUndo => Some(catalog::CommandId::EditorUndo),
        CommandKey::EditorRedo => Some(catalog::CommandId::EditorRedo),
        CommandKey::EditorSelectAll => Some(catalog::CommandId::EditorSelectAll),
        CommandKey::WorkspaceFocusPanel(t) => Some(catalog::CommandId::WorkspaceFocusPanel(t)),
        CommandKey::WorkspaceTogglePanel(t) => Some(catalog::CommandId::WorkspaceTogglePanel(t)),
        CommandKey::WorkspaceOpenProjectPicker => Some(catalog::CommandId::WorkspaceOpenProjectPicker),
        CommandKey::WorkspaceOpenSettings => Some(catalog::CommandId::WorkspaceOpenSettings),
        CommandKey::WorkspaceOpenCodeActions => Some(catalog::CommandId::WorkspaceOpenCodeActions),
        CommandKey::WorkspaceStartDebugging => Some(catalog::CommandId::WorkspaceStartDebugging),
        CommandKey::WorkspaceFileTreeSelectPrev => Some(catalog::CommandId::WorkspaceFileTreeSelectPrev),
        CommandKey::WorkspaceFileTreeSelectNext => Some(catalog::CommandId::WorkspaceFileTreeSelectNext),
        CommandKey::WorkspaceFileTreeExpandOrDescend => Some(catalog::CommandId::WorkspaceFileTreeExpandOrDescend),
        CommandKey::WorkspaceFileTreeCollapseOrAscend => Some(catalog::CommandId::WorkspaceFileTreeCollapseOrAscend),
        CommandKey::WorkspaceFileTreeActivateSelection => Some(catalog::CommandId::WorkspaceFileTreeActivateSelection),
        CommandKey::WorkspaceTabCloseActive => Some(catalog::CommandId::WorkspaceTabCloseActive),
        CommandKey::WorkspaceTabActivatePrev => Some(catalog::CommandId::WorkspaceTabActivatePrev),
        CommandKey::WorkspaceTabActivateNext => Some(catalog::CommandId::WorkspaceTabActivateNext),
        CommandKey::WorkspaceCloseFocused => None,
    }
}

/// The command a catalog id builds; inserting text needs its text and
/// builds none.
pub open spec fn command_of_id(id: catalog::CommandId) -> Option<Command> {
    match id {
        catalog::CommandId::EditorInsertText => None,
        catalog::CommandId::EditorInsertNewline => Some(Command::Editor(EditorCommand::InsertNewline)),
        catalog::CommandId::EditorMoveLeft => Some(Command::Editor(EditorCommand::MoveLeft)),
        catalog::CommandId::EditorMoveRight => Some(Command::Editor(EditorCommand::MoveRight)),
        catalog::CommandId::EditorMoveUp => Some(Command::Editor(EditorCommand::MoveUp)),
        catalog::CommandId::EditorMoveDown => Some(Command::Editor(EditorCommand::MoveDown)),
        catalog::CommandId::EditorMoveToStart => Some(Command::Editor(EditorCommand::MoveToStart)),
        catalog::CommandId::EditorMoveToEnd => Some(Command::Editor(EditorCommand::MoveToEnd)),
        catalog::CommandId::EditorMovePageUp => Some(Command::Editor(EditorCommand::MovePageUp)),
        catalog::CommandId::EditorMovePageDown => Some(Command::Editor(EditorCommand::MovePageDown)),
        catalog::CommandId::EditorDeleteBackward => Some(Command::Editor(EditorCommand::DeleteBackward)),
        catalog::CommandId::EditorDeleteForward => Some(Command::Editor(EditorCommand::DeleteForward)),
        catalog::CommandId::EditorDeleteWordBackward => Some(Command::Editor(EditorCommand::DeleteWordBackward)),
        catalog::CommandId::EditorDeleteWordForward => Some(Command::Editor(EditorCommand::DeleteWordForward)),
        catalog::CommandId::EditorUndo => Some(Command::Editor(EditorCommand::Undo)),
        catalog::CommandId::EditorRedo => Some(Command::Editor(EditorCommand::Redo)),
        catalog::CommandId::EditorSelectAll => Some(Command::Editor(EditorCommand::SelectAll)),
        catalog::CommandId::WorkspaceFocusPanel(t) => Some(Command::Workspace(WorkspaceCommand::FocusPanel(t))),
        catalog::CommandId::WorkspaceTogglePanel(t) => Some(Command::Workspace(WorkspaceCommand::TogglePanel(t))),
        catalog::CommandId::WorkspaceOpenProjectPicker => Some(Command::Workspace(WorkspaceCommand::OpenProjectPicker)),
        catalog::CommandId::WorkspaceOpenSettings => Some(Command::Workspace(WorkspaceCommand::OpenSettings)),
        catalog::CommandId::WorkspaceOpenCodeActions => Some(Command::Workspace(WorkspaceCommand::OpenCodeActions)),
        catalog::CommandId::WorkspaceStartDebugging => Some(Command::Workspace(WorkspaceCommand::StartDebugging)),
        catalog::CommandId::WorkspaceFileTreeSelectPrev => Some(Command::Workspace(WorkspaceCommand::FileTree(FileTreeCommand::SelectPrev))),
        catalog::CommandId::WorkspaceFileTreeSelectNext => Some(Command::Workspace(WorkspaceCommand::FileTree(FileTreeCommand::SelectNext))),
        catalog::CommandId::WorkspaceFileTreeExpandOrDescend => Some(Command::Workspace(WorkspaceCommand::FileTree(FileTreeCommand::ExpandOrDescend))),
        catalog::CommandId::WorkspaceFileTreeCollapseOrAscend => Some(Command::Workspace(WorkspaceCommand::FileTree(FileTreeCommand::CollapseOrAscend))),
        catalog::CommandId::WorkspaceFileTreeActivateSelection => Some(Command::Workspace(WorkspaceCommand::FileTree(FileTreeCommand::ActivateSelection))),
        catalog::CommandId::WorkspaceTabCloseActive => Some(Command::Workspace(WorkspaceCommand::Tab(TabCommand::CloseActiveTab))),
        catalog::CommandId::WorkspaceTabActivatePrev => Some(Command::Workspace(WorkspaceCommand::Tab(TabCommand::ActivatePrevTab))),
        catalog::CommandId::WorkspaceTabActivateNext => Some(Command::Workspace(WorkspaceCommand::Tab(TabCommand::ActivateNextTab))),
    }
}

/// The metadata of a catalog id.
pub open spec fn meta_spec(id: catalog::CommandId) -> CommandMeta {
    CommandMeta { id: CommandId(descriptor_spec(id).id), title: descriptor_spec(id).title, description: descriptor_spec(id).description }
}

/// `s` is the declaration of the catalog id `id`.
pub open spec fn declares_key(s: CommandSpec, id: catalog::CommandId) -> bool {
    &&& s.key == key_of(id)
    &&& s.meta == meta_spec(id)
    &&& s.command == command_of_id(id)
    &&& s.default_shortcuts@ == shortcuts_spec(id)
}

/// The index of the first declaration with key `k`, scanning from `i`; -1
/// when there is none.
pub open spec fn first_with_key(k: CommandKey, i: int) -> int
    decreases all_ids_spec().len() - i,
{
    if i < 0 || i >= all_ids_spec().len() {
        -1
    } else if key_of(all_ids_spec()[i]) == k {
        i
    } else {
        first_with_key(k, i + 1)
    }
}

/// The index of the first declaration whose id reads `id`, scanning from
/// `i`; -1 when there is none.
pub open spec fn first_with_id(id: Seq<char>, i: int) -> int
    decreases all_ids_spec().len() - i,
{
    if i < 0 || i >= all_ids_spec().len() {
        -1
    } else if descriptor_spec(all_ids_spec()[i]).id@ == id {
        i
    } else {
        first_with_id(id, i + 1)
    }
}

/// The key of a catalog id.
fn key_of_id(id: catalog::CommandId) -> (k: CommandKey)
    ensures k == key_of(id),
{
    match id {
        catalog::CommandId::EditorInsertText => CommandKey::EditorInsertText,
        catalog::CommandId::EditorInsertNewline => CommandKey::EditorInsertNewline,
        catalog::CommandId::EditorMoveLeft => CommandKey::EditorMoveLeft,
        catalog::CommandId::EditorMoveRight => CommandKey::EditorMoveRight,
        catalog::CommandId::EditorMoveUp => CommandKey::EditorMoveUp,
        catalog::CommandId::EditorMoveDown => CommandKey::EditorMoveDown,
        catalog::CommandId::EditorMoveToStart => CommandKey::EditorMoveToStart,
        catalog::CommandId::EditorMoveToEnd => CommandKey::EditorMoveToEnd,
        catalog::CommandId::EditorMovePageUp => CommandKey::EditorMovePageUp,
        catalog::CommandId::EditorMovePageDown => CommandKey::EditorMovePageDown,
        catalog::CommandId::EditorDeleteBackward => CommandKey::EditorDeleteBackward,
        catalog::CommandId::EditorDeleteForward => CommandKey::EditorDeleteForward,
        catalog::CommandId::EditorDeleteWordBackward => CommandKey::EditorDeleteWordBackward,
        catalog::CommandId::EditorDeleteWordForward => CommandKey::EditorDeleteWordForward,
        catalog::CommandId::EditorUndo => CommandKey::EditorUndo,
        catalog::CommandId::EditorRedo => CommandKey::EditorRedo,
        catalog::CommandId::EditorSelectAll => CommandKey::EditorSelectAll,
        catalog::CommandId::WorkspaceFocusPanel(t) => CommandKey::WorkspaceFocusPanel(t),
        catalog::CommandId::WorkspaceTogglePanel(t) => CommandKey::WorkspaceTogglePanel(t),
        catalog::CommandId::WorkspaceOpenProjectPicker => CommandKey::WorkspaceOpenProjectPicker,
        catalog::CommandId::WorkspaceOpenSettings => CommandKey::WorkspaceOpenSettings,
        catalog::CommandId::WorkspaceOpenCodeActions => CommandKey::WorkspaceOpenCodeActions,
        catalog::CommandId::WorkspaceStartDebugging => CommandKey::WorkspaceStartDebugging,
        catalog::CommandId::WorkspaceFileTreeSelectPrev => CommandKey::WorkspaceFileTreeSelectPrev,
        catalog::CommandId::WorkspaceFileTreeSelectNext => CommandKey::WorkspaceFileTreeSelectNext,
        catalog::CommandId::WorkspaceFileTreeExpandOrDescend => CommandKey::WorkspaceFileTreeExpandOrDescend,
        catalog::CommandId::WorkspaceFileTreeCollapseOrAscend => CommandKey::WorkspaceFileTreeCollapseOrAscend,
        catalog::CommandId::WorkspaceFileTreeActivateSelection => CommandKey::WorkspaceFileTreeActivateSelection,
        catalog::CommandId::WorkspaceTabCloseActive => CommandKey::WorkspaceTabCloseActive,
        catalog::CommandId::WorkspaceTabActivatePrev => CommandKey::WorkspaceTabActivatePrev,
        catalog::CommandId::WorkspaceTabActivateNext => CommandKey::WorkspaceTabActivateNext,
    }
}

/// The command a catalog id builds.
fn command_of_id_exec(id: catalog::CommandId) -> (c: Option<Command>)
    ensures c == command_of_id(id),
{
    match id {
        catalog::CommandId::EditorInsertText => None,
        catalog::CommandId::EditorInsertNewline => Some(Command::Editor(EditorCommand::InsertNewline)),
        catalog::CommandId::EditorMoveLeft => Some(Command::Editor(EditorCommand::MoveLeft)),
        catalog::CommandId::EditorMoveRight => Some(Command::Editor(EditorCommand::MoveRight)),
        catalog::CommandId::EditorMoveUp => Some(Command::Editor(EditorCommand::MoveUp)),
        catalog::CommandId::EditorMoveDown => Some(Command::Editor(EditorCommand::MoveDown)),
        catalog::CommandId::EditorMoveToStart => Some(Command::Editor(EditorCommand::MoveToStart)),
        catalog::CommandId::EditorMoveToEnd => Some(Command::Editor(EditorCommand::MoveToEnd)),
        catalog::CommandId::EditorMovePageUp => Some(Command::Editor(EditorCommand::MovePageUp)),
        catalog::CommandId::EditorMovePageDown => Some(Command::Editor(EditorCommand::MovePageDown)),
        catalog::CommandId::EditorDeleteBackward => Some(Command::Editor(EditorCommand::DeleteBackward)),
        catalog::CommandId::EditorDeleteForward => Some(Command::Editor(EditorCommand::DeleteForward)),
        catalog::CommandId::EditorDeleteWordBackward => Some(Command::Editor(EditorCommand::DeleteWordBackward)),
        catalog::CommandId::EditorDeleteWordForward => Some(Command::Editor(EditorCommand::DeleteWordForward)),
        catalog::CommandId::EditorUndo => Some(Command::Editor(EditorCommand::Undo)),
        catalog::CommandId::EditorRedo => Some(Command::Editor(EditorCommand::Redo)),
        catalog::CommandId::EditorSelectAll => Some(Command::Editor(EditorCommand::SelectAll)),
        catalog::CommandId::WorkspaceFocusPanel(t) => Some(Command::Workspace(WorkspaceCommand::FocusPanel(t))),
        catalog::CommandId::WorkspaceTogglePanel(t) => Some(Command::Workspace(WorkspaceCommand::TogglePanel(t))),
        catalog::CommandId::WorkspaceOpenProjectPicker => Some(Command::Workspace(WorkspaceCommand::OpenProjectPicker)),
        catalog::CommandId::WorkspaceOpenSettings => Some(Command::Workspace(WorkspaceCommand::OpenSettings)),
        catalog::CommandId::WorkspaceOpenCodeActions => Some(Command::Workspace(WorkspaceCommand::OpenCodeActions)),
        catalog::CommandId::WorkspaceStartDebugging => Some(Command::Workspace(WorkspaceCommand::StartDebugging)),
        catalog::CommandId::WorkspaceFileTreeSelectPrev => Some(Command::Workspace(WorkspaceCommand::FileTree(FileTreeCommand::SelectPrev))),
        catalog::CommandId::WorkspaceFileTreeSelectNext => Some(Command::Workspace(WorkspaceCommand::FileTree(FileTreeCommand::SelectNext))),
        catalog::CommandId::WorkspaceFileTreeExpandOrDescend => Some(Command::Workspace(WorkspaceCommand::FileTree(FileTreeCommand::ExpandOrDescend))),
        catalog::CommandId::WorkspaceFileTreeCollapseOrAscend => Some(Command::Workspace(WorkspaceCommand::FileTree(FileTreeCommand::CollapseOrAscend))),
        catalog::CommandId::WorkspaceFileTreeActivateSelection => Some(Command::Workspace(WorkspaceCommand::FileTree(FileTreeCommand::ActivateSelection))),
        catalog::CommandId::WorkspaceTabCloseActive => Some(Command::Workspace(WorkspaceCommand::Tab(TabCommand::CloseActiveTab))),
        catalog::CommandId::WorkspaceTabActivatePrev => Some(Command::Workspace(WorkspaceCommand::Tab(TabCommand::ActivatePrevTab))),
        catalog::CommandId::WorkspaceTabActivateNext => Some(Command::Workspace(WorkspaceCommand::Tab(TabCommand::ActivateNextTab))),
    }
}

/// The declaration of a catalog id.
fn spec_for_id(id: catalog::CommandId) -> (s: CommandSpec)
    ensures declares_key(s, id),
{
    let d = descriptor_for_id(id);
    CommandSpec::new(key_of_id(id), d.id, d.title, d.description, command_of_id_exec(id), default_shortcuts_for_id(id))
}

/// Every declaration, in the order of the catalog.
pub fn command_specs() -> (v: Vec<CommandSpec>)
    ensures
        v@.len() == all_ids_spec().len(),
        forall|i: int| 0 <= i < v@.len() ==> declares_key(#[trigger] v@[i], all_ids_spec()[i]),
{
    let ids = catalog::all_command_ids();
    let mut specs: Vec<CommandSpec> = Vec::new();
    let mut i: usize = 0;
    while i < ids.len()
        invariant
            ids@ == all_ids_spec(),
            i <= ids@.len(),
            specs@.len() == i,
            forall|k: int| 0 <= k < i ==> declares_key(#[trigger] specs@[k], ids@[k]),
        decreases ids@.len() - i,
    {
        specs.push(spec_for_id(ids[i]));
        i = i + 1;
    }
    specs
}

/// The key of a command.
pub fn command_key(command: &Command) -> (k: CommandKey)
    ensures k == key_of(command_id_spec(*command)),
{
    key_of_id(command_id(command))
}

/// The index of the first declaration with key `k`.
fn index_of_key(k: CommandKey) -> (r: Option<usize>)
    ensures
        r is None <==> first_with_key(k, 0) < 0,
        r matches Some(i) ==> i == first_with_key(k, 0) && i < all_ids_spec().len(),
{
    let ids = catalog::all_command_ids();
    let mut i: usize = 0;
    while i < ids.len()
        invariant
            ids@ == all_ids_spec(),
            i <= ids@.len(),
            first_with_key(k, 0) == first_with_key(k, i as int),
        decreases ids@.len() - i,
    {
        if key_of_id(ids[i]) == k {
            return Some(i);
        }
        i = i + 1;
    }
    None
}

/// The declaration with key `key`; `None` when there is none.
pub fn command_spec_by_key(key: CommandKey) -> (r: Option<CommandSpec>)
    ensures
        r is Some <==> first_with_key(key, 0) >= 0,
        r matches Some(s) ==> declares_key(s, all_ids_spec()[first_with_key(key, 0)]),
{
    match index_of_key(key) {
        Some(i) => {
            let ids = catalog::all_command_ids();
            Some(spec_for_id(ids[i]))
        },
        None => None,
    }
}

/// The first declaration whose id reads `id`; `None` when there is none.
pub fn command_spec_by_id(id: CommandId) -> (r: Option<CommandSpec>)
    ensures
        r is Some <==> first_with_id(id.0@, 0) >= 0,
        r matches Some(s) ==> declares_key(s, all_ids_spec()[first_with_id(id.0@, 0)]),
{
    let ids = catalog::all_command_ids();
    let mut i: usize = 0;
    while i < ids.len()
        invariant
            ids@ == all_ids_spec(),
            i <= ids@.len(),
            first_with_id(id.0@, 0) == first_with_id(id.0@, i as int),
        decreases ids@.len() - i,
    {
        let d = descriptor_for_id(ids[i]);
        if same_str(d.id, id.0) {
            return Some(spec_for_id(ids[i]));
        }
        i = i + 1;
    }
    None
}

/// Whether two strings hold the same characters.
fn same_str(a: &str, b: &str) -> (r: bool)
    ensures r == (a@ == b@),
{
    a.to_owned() == b.to_owned()
}

/// The command a key builds: `None` for a key without declaration and for a
/// command that needs a payload.
pub fn command_from_key(key: CommandKey) -> (r: Option<Command>)
    ensures
        first_with_key(key, 0) < 0 ==> r is None,
        first_with_key(key, 0) >= 0 ==> r == command_of_id(all_ids_spec()[first_with_key(key, 0)]),
{
    match command_spec_by_key(key) {
        Some(spec) => spec.command,
        None => None,
    }
}

/// The declaration of a command in the catalog.
pub fn command_spec(command: &Command) -> (s: CommandSpec)
    requires all_ids_spec().contains(command_id_spec(*command)),
    ensures declares_key(s, command_id_spec(*command)),
{
    spec_for_id(command_id(command))
}

/// The metadata of a command in the catalog.
pub fn command_meta(command: &Command) -> (m: CommandMeta)
    requires all_ids_spec().contains(command_id_spec(*command)),
    ensures m == meta_spec(command_id_spec(*command)),
{
    command_spec(command).meta
}

impl Command {
    /// The key of the command.
    pub fn key(&self) -> (k: CommandKey)
        ensures k == key_of(command_id_spec(*self)),
    {
        command_key(self)
    }

    /// The metadata of the command, which the catalog holds.
    pub fn meta(&self) -> (m: CommandMeta)
        requires all_ids_spec().contains(command_id_spec(*self)),
        ensures m == meta_spec(command_id_spec(*self)),
    {
        command_meta(self)
    }
}

} // verus!
