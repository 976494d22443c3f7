use zom::command::catalog::{
    command_catalog, command_descriptor, default_shortcut_bindings as catalog_bindings, Command, CommandId,
    WorkspaceCommand,
};
use zom::command::invocation::{CommandInvocation, EditorAction, FileTreeAction, OverlayTarget, WorkspaceAction};
use zom::command::kind::{
    command_kind, command_kind_spec_by_id, command_kind_spec_by_kind, command_meta, default_shortcut_bindings,
    invocation_from_kind, CommandKind, CommandKindId,
};
use zom::command::keyed::{command_from_key, command_spec_by_key, command_specs, CommandKey};
use zom::focus::FocusTarget;
use zom::input::keymap::Keymap;
use zom::input::{
    command, default_keymap, default_shortcut_registry, shortcut_hint, EditorInputContext, InputContext,
    InputResolution, KeyCode, Keystroke, Modifiers, ShortcutScope,
};

fn editor_context() -> InputContext {
    InputContext {
        focus: FocusTarget::Editor,
        is_in_text_input: false,
        is_command_palette_open: false,
        editor: Some(EditorInputContext { is_editable: true, is_read_only: false, has_selection: false }),
    }
}

fn focus_panel_command(target: FocusTarget) -> CommandInvocation {
    CommandInvocation::from(WorkspaceAction::FocusPanel(target))
}

fn focus_settings_overlay_command() -> CommandInvocation {
    CommandInvocation::from(WorkspaceAction::FocusOverlay(OverlayTarget::Settings))
}

#[test]
fn modifiers_can_report_whether_any_modifier_is_pressed() {
    assert!(Modifiers::default().is_empty());
    assert!(!Modifiers::new(true, false, false, false).is_empty());
}

#[test]
fn input_context_builder_helpers_keep_it_as_data_model() {
    let editor = EditorInputContext::new(true, false, true);
    let context = InputContext::new(FocusTarget::Editor)
        .with_editor(editor.clone())
        .with_text_input(true)
        .with_command_palette_open(true);

    assert_eq!(context.focus, FocusTarget::Editor);
    assert!(context.is_in_text_input);
    assert!(context.is_command_palette_open);
    assert_eq!(context.editor, Some(editor));
}

#[test]
fn keystroke_and_input_resolution_have_convenient_constructors() {
    let keystroke = Keystroke::new(KeyCode::Enter, Modifiers::default());
    let resolution = InputResolution::command(CommandInvocation::from(EditorAction::Undo));
    let text = InputResolution::insert_text("x");

    assert_eq!(keystroke.key, KeyCode::Enter);
    assert_eq!(keystroke.modifiers, Modifiers::default());
    assert!(!resolution.is_noop());
    assert_eq!(text, InputResolution::InsertText("x".into()));
}

#[test]
fn resolves_editor_binding_first() {
    let mut keymap = Keymap::new();
    let key = Keystroke { key: KeyCode::Char('x'), modifiers: Modifiers::default() };

    keymap.bind_global(key.clone(), InputResolution::InsertText("global".into()));
    keymap.bind_editor(key.clone(), command(CommandInvocation::from(EditorAction::DeleteBackward)));

    assert_eq!(
        keymap.resolve(&key, &editor_context()),
        InputResolution::Command(CommandInvocation::from(EditorAction::DeleteBackward))
    );
}

#[test]
fn returns_noop_when_no_binding() {
    let keymap = Keymap::new();
    let key = Keystroke { key: KeyCode::Escape, modifiers: Modifiers::default() };

    assert_eq!(keymap.resolve(&key, &editor_context()), InputResolution::Noop);
}

#[test]
fn default_keymap_resolves_file_tree_scoped_navigation() {
    let keymap = default_keymap();
    let key = Keystroke::new(KeyCode::Down, Modifiers::default());
    let context = InputContext::new(FocusTarget::FileTreePanel);

    assert_eq!(
        keymap.resolve(&key, &context),
        InputResolution::Command(CommandInvocation::from(FileTreeAction::SelectNext))
    );
}

#[test]
fn default_keymap_resolves_global_file_tree_focus() {
    let keymap = default_keymap();
    let key = Keystroke::new(KeyCode::Char('e'), Modifiers::new(false, false, true, true));
    let context = InputContext::new(FocusTarget::Editor);

    assert_eq!(
        keymap.resolve(&key, &context),
        InputResolution::Command(focus_panel_command(FocusTarget::FileTreePanel))
    );
}

#[test]
fn default_keymap_resolves_open_project_shortcut() {
    let keymap = default_keymap();
    let key = Keystroke::new(KeyCode::Char('p'), Modifiers::new(false, false, true, true));
    let context = InputContext::new(FocusTarget::Editor);

    assert_eq!(
        keymap.resolve(&key, &context),
        InputResolution::Command(CommandInvocation::from(WorkspaceAction::OpenProjectPicker))
    );
}

#[test]
fn default_keymap_resolves_focus_settings_overlay_shortcut() {
    let keymap = default_keymap();
    let key = Keystroke::new(KeyCode::Char(','), Modifiers::new(false, false, false, true));
    let context = InputContext::new(FocusTarget::Editor);

    assert_eq!(keymap.resolve(&key, &context), InputResolution::Command(focus_settings_overlay_command()));
}

#[test]
fn default_keymap_resolves_notification_focus_shortcut() {
    let keymap = default_keymap();
    let key = Keystroke::new(KeyCode::Char('n'), Modifiers::new(false, false, true, true));
    let context = InputContext::new(FocusTarget::Editor);

    assert_eq!(
        keymap.resolve(&key, &context),
        InputResolution::Command(focus_panel_command(FocusTarget::NotificationPanel))
    );
}

#[test]
fn default_keymap_resolves_panel_close_shortcut_for_focused_file_tree() {
    let keymap = default_keymap();
    let key = Keystroke::new(KeyCode::Char('w'), Modifiers::new(false, false, false, true));
    let context = InputContext::new(FocusTarget::FileTreePanel);

    assert_eq!(
        keymap.resolve(&key, &context),
        InputResolution::Command(CommandInvocation::from(WorkspaceAction::CloseFocused))
    );
}

#[test]
fn default_shortcut_registry_contains_file_tree_focus_shortcut() {
    let registry = default_shortcut_registry();
    let binding = registry
        .bindings()
        .iter()
        .find(|binding| binding.command == focus_panel_command(FocusTarget::FileTreePanel))
        .expect("file tree focus shortcut should exist");

    assert_eq!(binding.scope, ShortcutScope::Global);
    assert_eq!(binding.keystroke, Keystroke::new(KeyCode::Char('e'), Modifiers::new(false, false, true, true)));
}

#[test]
fn shortcut_hint_uses_registry_definition() {
    assert_eq!(shortcut_hint(&focus_panel_command(FocusTarget::FileTreePanel)), Some("Cmd+Shift+E".to_string()));
    assert_eq!(shortcut_hint(&focus_panel_command(FocusTarget::GitPanel)), Some("Cmd+Shift+G".to_string()));
    assert_eq!(shortcut_hint(&focus_panel_command(FocusTarget::OutlinePanel)), Some("Cmd+Shift+O".to_string()));
    assert_eq!(
        shortcut_hint(&focus_panel_command(FocusTarget::ProjectSearchPanel)),
        Some("Cmd+Shift+F".to_string())
    );
    assert_eq!(shortcut_hint(&focus_panel_command(FocusTarget::TerminalPanel)), Some("Cmd+.".to_string()));
    assert_eq!(
        shortcut_hint(&CommandInvocation::from(WorkspaceAction::OpenProjectPicker)),
        Some("Cmd+Shift+P".to_string())
    );
    assert_eq!(shortcut_hint(&focus_settings_overlay_command()), Some("Cmd+,".to_string()));
    assert_eq!(
        shortcut_hint(&focus_panel_command(FocusTarget::NotificationPanel)),
        Some("Cmd+Shift+N".to_string())
    );
    assert_eq!(shortcut_hint(&CommandInvocation::from(WorkspaceAction::CloseFocused)), Some("Cmd+W".to_string()));
}

#[test]
fn default_binding_metadata_is_structured() {
    let registry = default_shortcut_registry();
    let file_tree_focus = registry
        .bindings()
        .iter()
        .find(|binding| binding.command == focus_panel_command(FocusTarget::FileTreePanel))
        .expect("file tree focus binding should exist");

    assert_eq!(file_tree_focus.scope, ShortcutScope::Global);
    assert_eq!(file_tree_focus.priority, 100);
}

#[test]
fn mod_command_meta_provides_stable_ids_for_parameterized_commands() {
    let command = CommandInvocation::from(WorkspaceAction::FocusPanel(FocusTarget::FileTreePanel));
    let meta = command_meta(&command);

    assert_eq!(meta.id, CommandKindId("workspace.focus_panel.file_tree"));
    assert_eq!(meta.title, "Focus File Tree Panel");
}

#[test]
fn command_specs_are_queryable_by_kind() {
    let spec = command_kind_spec_by_kind(CommandKind::WorkspaceOpenProjectPicker)
        .expect("open project picker should be declared");

    assert_eq!(spec.meta.id, CommandKindId("workspace.open_project_picker"));
}

#[test]
fn mod_command_specs_are_queryable_by_id() {
    let spec = command_kind_spec_by_id(CommandKindId("workspace.open_settings"))
        .expect("open settings should be declared");

    assert_eq!(spec.kind, CommandKind::WorkspaceOpenSettings);
}

#[test]
fn mod_default_shortcut_bindings_are_emitted_from_catalog() {
    let bindings = default_shortcut_bindings();
    let has_project_picker = bindings
        .iter()
        .any(|binding| binding.command == CommandInvocation::from(WorkspaceAction::OpenProjectPicker));
    let has_settings =
        bindings.iter().any(|binding| binding.command == CommandInvocation::from(WorkspaceAction::OpenSettings));

    assert!(has_project_picker);
    assert!(has_settings);
}

#[test]
fn mod_editor_insert_text_declares_empty_default_shortcuts() {
    let spec = command_kind_spec_by_kind(CommandKind::EditorInsertText).expect("editor.insert_text should be declared");

    assert!(spec.default_shortcuts.is_empty());
    assert_eq!(spec.meta.id, CommandKindId("editor.insert_text"));
}

#[test]
fn invocation_from_kind_returns_none_for_dynamic_payload_commands() {
    assert!(invocation_from_kind(CommandKind::EditorInsertText).is_none());
    assert!(invocation_from_kind(CommandKind::WorkspaceOpenSettings).is_some());
}

#[test]
fn descriptors_provide_stable_ids_for_parameterized_commands() {
    let command = Command::from(WorkspaceCommand::FocusPanel(FocusTarget::FileTreePanel));
    let descriptor = command_descriptor(&command);

    assert_eq!(descriptor.id, "workspace.focus_panel.file_tree");
    assert_eq!(descriptor.title, "Focus File Tree Panel");
}

#[test]
fn catalog_default_shortcut_bindings_are_emitted_from_catalog() {
    let bindings = catalog_bindings();
    let has_project_picker =
        bindings.iter().any(|binding| binding.command == Command::from(WorkspaceCommand::OpenProjectPicker));
    let has_settings = bindings.iter().any(|binding| binding.command == Command::from(WorkspaceCommand::OpenSettings));

    assert!(has_project_picker);
    assert!(has_settings);
}

#[test]
fn command_catalog_contains_entries_without_default_shortcuts() {
    let catalog = command_catalog();
    let editor_insert_text = catalog
        .iter()
        .find(|entry| entry.id == CommandId::EditorInsertText)
        .expect("editor.insert_text should be cataloged");

    assert!(editor_insert_text.default_shortcuts.is_empty());
    assert_eq!(editor_insert_text.descriptor.id, "editor.insert_text");
}

#[test]
fn kind_lookup_roundtrips_through_invocations() {
    for spec in zom::command::kind::command_kind_specs() {
        if let Some(invocation) = invocation_from_kind(spec.kind) {
            assert_eq!(command_kind(&invocation), spec.kind);
        }
    }
}

#[test]
fn hint_of_unbound_command_is_none_and_function_keys_are_shown() {
    assert_eq!(shortcut_hint(&CommandInvocation::from(EditorAction::Undo)), None);
    assert_eq!(shortcut_hint(&CommandInvocation::from(WorkspaceAction::StartDebugging)), Some("F5".to_string()));
    assert_eq!(
        zom::input::shortcuts::keystroke_hint(Keystroke::new(KeyCode::F(12), Modifiers::new(true, true, false, false))),
        "Ctrl+Alt+F12"
    );
}

#[test]
fn focus_priority_beats_global_binding() {
    let mut keymap = Keymap::new();
    let key = Keystroke::new(KeyCode::Char('k'), Modifiers::default());
    keymap.bind_global(key, InputResolution::InsertText("global".into()));
    keymap.bind_focus(FocusTarget::GitPanel, key, InputResolution::InsertText("git".into()));
    assert_eq!(keymap.resolve(&key, &InputContext::new(FocusTarget::GitPanel)), InputResolution::InsertText("git".into()));
    assert_eq!(keymap.resolve(&key, &InputContext::new(FocusTarget::Editor)), InputResolution::InsertText("global".into()));
}

#[test]
fn shortcut_hint_projects_from_input_registry() {
    let command = CommandInvocation::from(WorkspaceAction::CloseFocused);
    assert_eq!(shortcut_hint(&command), Some("Cmd+W".to_string()));
}

#[test]
fn kind_table_words_panel_focus_itself() {
    let git = command_meta(&CommandInvocation::from(WorkspaceAction::FocusPanel(FocusTarget::GitPanel)));
    assert_eq!(git.id, CommandKindId("workspace.focus_panel.git"));
    assert_eq!(git.title, "聚焦 Git 面板");
    assert_eq!(git.description, "显示并聚焦 Git 面板");

    let editor = command_meta(&CommandInvocation::from(WorkspaceAction::FocusPanel(FocusTarget::Editor)));
    assert_eq!(editor.title, "Focus Editor");
    assert_eq!(editor.description, "Move focus to the editor pane.");

    let close = command_meta(&CommandInvocation::from(WorkspaceAction::CloseFocused));
    assert_eq!(close.id, CommandKindId("workspace.close_focused"));
    assert_eq!(close.title, "关闭或隐藏");
}

#[test]
fn command_specs_are_queryable_by_key() {
    let spec = zom::command::keyed::command_spec_by_key(zom::command::keyed::CommandKey::WorkspaceOpenProjectPicker)
        .expect("open project picker should be declared");

    assert_eq!(spec.meta.id, zom::command::keyed::CommandId("workspace.open_project_picker"));
}

#[test]
fn command_from_key_returns_none_for_dynamic_payload_commands() {
    assert!(command_from_key(CommandKey::EditorInsertText).is_none());
    assert!(command_from_key(CommandKey::WorkspaceOpenSettings).is_some());
}

#[test]
fn keyed_command_meta_provides_stable_ids_for_parameterized_commands() {
    let command = Command::from(WorkspaceCommand::FocusPanel(FocusTarget::FileTreePanel));
    let meta = zom::command::keyed::command_meta(&command);

    assert_eq!(meta.id, zom::command::keyed::CommandId("workspace.focus_panel.file_tree"));
    assert_eq!(meta.title, "Focus File Tree Panel");
    assert_eq!(command.meta(), meta);
    assert_eq!(command.key(), zom::command::keyed::CommandKey::WorkspaceFocusPanel(FocusTarget::FileTreePanel));
}

#[test]
fn keyed_command_specs_are_queryable_by_id() {
    let spec = zom::command::keyed::command_spec_by_id(zom::command::keyed::CommandId("workspace.open_settings"))
        .expect("open settings should be declared");

    assert_eq!(spec.key, zom::command::keyed::CommandKey::WorkspaceOpenSettings);
    assert_eq!(spec.command, Some(Command::from(WorkspaceCommand::OpenSettings)));
    assert!(zom::command::keyed::command_spec_by_id(zom::command::keyed::CommandId("workspace.nothing")).is_none());
}

#[test]
fn keyed_editor_insert_text_declares_empty_default_shortcuts() {
    let spec = zom::command::keyed::command_spec_by_key(zom::command::keyed::CommandKey::EditorInsertText)
        .expect("editor.insert_text should be declared");

    assert!(spec.default_shortcuts.is_empty());
    assert_eq!(spec.meta.id, zom::command::keyed::CommandId("editor.insert_text"));
    assert!(spec.command.is_none());
}

#[test]
fn keyed_table_follows_the_catalog() {
    let specs = command_specs();
    assert_eq!(specs.len(), command_catalog().len());
    assert!(command_spec_by_key(CommandKey::WorkspaceCloseFocused).is_none());
    let toggle = command_spec_by_key(CommandKey::WorkspaceTogglePanel(FocusTarget::GitPanel)).expect("toggle git declared");
    assert_eq!(toggle.meta.id, zom::command::keyed::CommandId("workspace.toggle_panel.git"));
}
