use zom::command::invocation::{CommandInvocation, FileTreeAction, WorkspaceAction};
use zom::focus::FocusTarget;
use zom::lines::{detect_line_ending, split_lines};
use zom::workbench::desktop::{DesktopAppState, DesktopUiAction};
use zom::workbench::file_tree::{FileTreeNode, FileTreeNodeKind, FileTreeState};
use zom::workbench::listing::{is_skipped_entry, ListedEntry, ListedKind};
use zom::workbench::overview::DesktopAppState as OverviewState;
use zom::workbench::pane::{BufferId, TabState};
use zom::workbench::utils::{buffer_preview, file_name_from_path, project_name_from_root, workspace_file_absolute_path};

fn directory(name: &str, path: &str, is_expanded: bool, children: Vec<FileTreeNode>) -> FileTreeNode {
    FileTreeNode {
        name: name.into(),
        path: path.into(),
        kind: FileTreeNodeKind::Directory,
        is_expanded,
        is_selected: false,
        is_active: false,
        children,
    }
}

fn file(name: &str, path: &str) -> FileTreeNode {
    FileTreeNode {
        name: name.into(),
        path: path.into(),
        kind: FileTreeNodeKind::File,
        is_expanded: false,
        is_selected: false,
        is_active: false,
        children: Vec::new(),
    }
}

fn test_tab(relative_path: &str) -> TabState {
    TabState {
        buffer_id: BufferId::new(999),
        title: "old".into(),
        relative_path: relative_path.into(),
        buffer_lines: vec!["old".into()],
    }
}

#[test]
fn toggle_directory_updates_expanded_flag() {
    let mut tree = FileTreeState { title: "EXPLORER".into(), roots: vec![directory("root", "root", true, vec![])] };

    tree.toggle_directory("root");
    assert!(!tree.roots[0].is_expanded);

    tree.toggle_directory("root");
    assert!(tree.roots[0].is_expanded);
}

#[test]
fn activate_file_marks_only_target_node() {
    let mut tree = FileTreeState {
        title: "EXPLORER".into(),
        roots: vec![directory(
            "root",
            "root",
            false,
            vec![file("a.rs", "root/a.rs"), directory("src", "root/src", false, vec![file("b.rs", "root/src/b.rs")])],
        )],
    };

    tree.activate_file("root/src/b.rs");

    let root = &tree.roots[0];
    assert!(root.is_expanded);
    assert!(!root.children[0].is_active);
    assert!(root.children[1].is_expanded);
    assert!(root.children[1].children[0].is_active);
    assert!(root.children[1].children[0].is_selected);
}

#[test]
fn keyboard_navigation_moves_selection_between_visible_nodes() {
    let mut tree = FileTreeState {
        title: "EXPLORER".into(),
        roots: vec![directory("root", "root", true, vec![file("a.rs", "root/a.rs"), file("b.rs", "root/b.rs")])],
    };

    tree.select_next_visible();
    assert_eq!(tree.selected_node(), Some(("root".to_string(), FileTreeNodeKind::Directory)));

    tree.select_next_visible();
    assert_eq!(tree.selected_node(), Some(("root/a.rs".to_string(), FileTreeNodeKind::File)));

    tree.select_prev_visible();
    assert_eq!(tree.selected_node(), Some(("root".to_string(), FileTreeNodeKind::Directory)));
}

#[test]
fn keyboard_expand_and_collapse_operates_on_selected_directory() {
    let mut tree = FileTreeState {
        title: "EXPLORER".into(),
        roots: vec![directory("root", "root", false, vec![file("a.rs", "root/a.rs"), file("b.rs", "root/b.rs")])],
    };

    tree.select_next_visible();
    tree.expand_or_descend_selected();
    assert!(tree.roots[0].is_expanded);

    tree.collapse_or_ascend_selected();
    assert!(!tree.roots[0].is_expanded);
}

#[test]
fn ensure_selection_selects_first_visible_node_when_none_selected() {
    let mut tree = FileTreeState {
        title: "EXPLORER".into(),
        roots: vec![directory("root", "root", true, vec![file("a.rs", "root/a.rs"), file("b.rs", "root/b.rs")])],
    };

    assert!(tree.ensure_selection());
    assert_eq!(tree.selected_node(), Some(("root".to_string(), FileTreeNodeKind::Directory)));
}

#[test]
fn ensure_selection_reselects_when_current_selection_is_not_visible() {
    let mut tree = FileTreeState {
        title: "EXPLORER".into(),
        roots: vec![directory(
            "root",
            "root",
            true,
            vec![directory("src", "root/src", false, vec![file("main.rs", "root/src/main.rs")])],
        )],
    };
    tree.roots[0].children[0].children[0].is_selected = true;

    assert!(tree.ensure_selection());
    assert_eq!(tree.selected_node(), Some(("root".to_string(), FileTreeNodeKind::Directory)));
}

#[test]
fn expand_descends_into_first_child_of_expanded_directory() {
    let mut tree = FileTreeState {
        title: "EXPLORER".into(),
        roots: vec![directory("root", "root", true, vec![file("a.rs", "root/a.rs")])],
    };
    tree.select_next_visible();
    tree.expand_or_descend_selected();
    assert_eq!(tree.selected_node(), Some(("root/a.rs".to_string(), FileTreeNodeKind::File)));
    tree.collapse_or_ascend_selected();
    assert_eq!(tree.selected_node(), Some(("root".to_string(), FileTreeNodeKind::Directory)));
}

#[test]
fn selection_moves_stay_within_visible_nodes() {
    let mut tree = FileTreeState {
        title: "EXPLORER".into(),
        roots: vec![directory("root", "root", true, vec![file("a.rs", "root/a.rs")])],
    };
    tree.select_prev_visible();
    assert_eq!(tree.selected_node(), Some(("root/a.rs".to_string(), FileTreeNodeKind::File)));
    tree.select_next_visible();
    assert_eq!(tree.selected_node(), Some(("root/a.rs".to_string(), FileTreeNodeKind::File)));
    let mut empty = FileTreeState { title: "EXPLORER".into(), roots: vec![] };
    assert!(!empty.ensure_selection());
    assert_eq!(empty.selected_node(), None);
}

#[test]
fn sample_state_has_buffers_and_sidebar_content() {
    let state = OverviewState::sample();

    assert!(!state.buffers.is_empty());
    assert!(!state.sidebar_sections.is_empty());
    assert_eq!(state.product_name, "zom");
}

#[test]
fn sample_state_has_buffers_and_file_tree_content() {
    let state = DesktopAppState::sample("zom");

    assert!(!state.file_tree.roots.is_empty());
    assert!(state.pane.tabs.is_empty());
}

#[test]
fn sample_state_starts_without_active_tab() {
    let state = DesktopAppState::sample("zom");
    assert!(state.pane.active_tab().is_none());
}

#[test]
fn split_lines_preserves_blank_lines() {
    let lines = split_lines("a\n\nb\n");

    assert_eq!(lines, vec!["a", "", "b", ""]);
}

#[test]
fn detect_line_ending_distinguishes_crlf_and_lf() {
    assert_eq!(detect_line_ending("a\r\nb\r\n"), "CRLF");
    assert_eq!(detect_line_ending("a\nb\n"), "LF");
}

#[test]
fn activating_file_tree_file_opens_tab_and_activates_it() {
    let mut state = DesktopAppState::sample("zom");
    let before_len = state.pane.tabs.len();

    state.handle_file_tree_node_activate("crates/zom-app/src/lib.rs", FileTreeNodeKind::File);
    let path = state.take_pending_file_open().expect("the file should be queued for opening");
    let (lines, ending, cursor) = buffer_preview("//! zom-app\npub mod state;\n");
    state.open_file_in_pane(&path, lines, ending, cursor);

    assert_eq!(state.pane.tabs.len(), before_len + 1);
    let active_tab = state.pane.active_tab().expect("active tab should exist");
    assert_eq!(active_tab.relative_path, "crates/zom-app/src/lib.rs");
    assert!(!active_tab.buffer_lines.is_empty());
    assert_eq!(state.focused_target, FocusTarget::Editor);
    assert_eq!(state.take_pending_focus_target(), Some(FocusTarget::Editor));
}

#[test]
fn focus_panel_shows_file_tree_and_requests_focus() {
    let mut state = DesktopAppState::sample("zom");
    state.set_panel_visible(FocusTarget::FileTreePanel, false);
    state.file_tree.roots[0].is_selected = false;

    state.handle_command(CommandInvocation::from(WorkspaceAction::FocusPanel(FocusTarget::FileTreePanel)));

    assert!(state.is_panel_visible(FocusTarget::FileTreePanel));
    assert_eq!(state.focused_target, FocusTarget::FileTreePanel);
    assert_eq!(state.take_pending_focus_target(), Some(FocusTarget::FileTreePanel));
    assert_eq!(state.file_tree.selected_node().map(|(path, _)| path), Some("".to_string()));
}

#[test]
fn close_focused_hides_focused_file_tree_and_falls_back_to_editor() {
    let mut state = DesktopAppState::sample("zom");
    state.focused_target = FocusTarget::FileTreePanel;
    state.set_panel_visible(FocusTarget::FileTreePanel, true);

    state.handle_command(CommandInvocation::from(WorkspaceAction::CloseFocused));

    assert!(!state.is_panel_visible(FocusTarget::FileTreePanel));
    assert_eq!(state.focused_target, FocusTarget::Editor);
    assert_eq!(state.take_pending_focus_target(), Some(FocusTarget::Editor));
}

#[test]
fn close_focused_closes_active_tab_when_editor_is_focused() {
    let mut state = DesktopAppState::sample("zom");
    state.focused_target = FocusTarget::Editor;
    state.pane.tabs = vec![test_tab("a.rs"), test_tab("b.rs")];
    state.pane.active_tab_index = Some(1);

    state.handle_command(CommandInvocation::from(WorkspaceAction::CloseFocused));

    assert_eq!(state.pane.tabs.len(), 1);
    assert_eq!(state.pane.tabs[0].relative_path, "a.rs");
    assert_eq!(state.pane.active_tab_index, Some(0));
}

#[test]
fn keyboard_shortcut_focuses_file_tree_via_default_keymap() {
    let mut state = DesktopAppState::sample("zom");
    let keystroke = zom::input::Keystroke::new(
        zom::input::KeyCode::Char('e'),
        zom::input::Modifiers::new(false, false, true, true),
    );

    let handled = state.handle_keystroke(&keystroke);

    assert!(handled);
    assert!(state.is_panel_visible(FocusTarget::FileTreePanel));
    assert_eq!(state.focused_target, FocusTarget::FileTreePanel);
    assert_eq!(state.take_pending_focus_target(), Some(FocusTarget::FileTreePanel));
}

#[test]
fn keyboard_shortcut_can_request_open_project_picker_ui_action() {
    let mut state = DesktopAppState::sample("zom");
    let keystroke = zom::input::Keystroke::new(
        zom::input::KeyCode::Char('p'),
        zom::input::Modifiers::new(false, false, true, true),
    );

    let handled = state.handle_keystroke(&keystroke);

    assert!(handled);
    assert_eq!(state.take_pending_ui_action(), Some(DesktopUiAction::OpenProjectPicker));
}

#[test]
fn keyboard_select_and_activate_opens_file_in_pane() {
    let root = "/tmp/zom-desktop-state-keyboard-open";
    let listing = vec![ListedEntry { name: "main.rs".to_string(), kind: ListedKind::File, children: Vec::new() }];
    let mut state = DesktopAppState::sample("zom");
    state.switch_project(root, FileTreeState::from_workspace_root(root, &listing));

    state.file_tree.select_next_visible();
    state.file_tree.select_next_visible();
    state.pane.tabs.clear();
    state.pane.active_tab_index = None;

    state.handle_command(CommandInvocation::from(FileTreeAction::ActivateSelection));
    let path = state.take_pending_file_open().expect("the file should be queued for opening");
    let (lines, ending, cursor) = buffer_preview("fn main() {}");
    state.open_file_in_pane(&path, lines, ending, cursor);

    assert_eq!(state.pane.tabs.len(), 1);
    let active_tab = state.pane.active_tab().expect("active tab should exist");
    assert_eq!(active_tab.relative_path, "main.rs");
    assert_eq!(active_tab.buffer_lines[0], "fn main() {}");
}

#[test]
fn switch_project_names_project_and_clears_tabs() {
    let mut state = DesktopAppState::sample("zom");
    state.pane.tabs.push(test_tab("old.rs"));
    state.pane.active_tab_index = Some(0);
    let tree = FileTreeState {
        title: "EXPLORER".into(),
        roots: vec![directory("demo", "", true, vec![directory("src", "src", false, vec![])])],
    };

    state.switch_project("/home/me/demo/", tree);

    assert_eq!(state.project_name, "demo");
    assert_eq!(state.project_root, "/home/me/demo/");
    assert!(state.pane.tabs.is_empty());
    assert!(state.pane.active_tab_index.is_none());
    assert_eq!(state.tool_bar.cursor, "1:1");
    assert_eq!(
        state.file_tree.roots[0].children.iter().map(|node| node.path.as_str()).collect::<Vec<_>>(),
        vec!["src"]
    );
}

#[test]
fn reopening_a_file_reuses_its_tab() {
    let mut state = DesktopAppState::sample("zom");
    state.open_file_in_pane("src/a.rs", vec!["one".to_string()], "LF".to_string(), "1:1".to_string());
    state.open_file_in_pane("src/b.rs", vec!["two".to_string()], "CRLF".to_string(), "1:1".to_string());
    state.open_file_in_pane("src/a.rs", vec!["three".to_string()], "LF".to_string(), "2:1".to_string());

    assert_eq!(state.pane.tabs.len(), 2);
    assert_eq!(state.pane.active_tab_index, Some(0));
    assert_eq!(state.pane.tabs[0].buffer_lines, vec!["three".to_string()]);
    assert_eq!(state.pane.tabs[0].title, "a.rs");
    assert_eq!(state.pane.tabs[1].buffer_id, BufferId::new(2));
    assert_eq!(state.tool_bar.cursor, "2:1");
}

#[test]
fn paths_and_previews() {
    assert_eq!(file_name_from_path("crates/zom-app/src/lib.rs"), "lib.rs");
    assert_eq!(file_name_from_path("a/b/"), "b");
    assert_eq!(file_name_from_path("a/.."), "a/..");
    assert_eq!(project_name_from_root("/"), "workspace");
    assert_eq!(project_name_from_root("/home/me/zom"), "zom");
    assert_eq!(workspace_file_absolute_path("/w", "src/a.rs"), "/w/src/a.rs");
    assert_eq!(workspace_file_absolute_path("/w/", "src/a.rs"), "/w/src/a.rs");
    assert_eq!(workspace_file_absolute_path("/w", "/etc/x"), "/etc/x");
    let (lines, ending, cursor) = buffer_preview("a\r\nb\r\n");
    assert_eq!(lines, vec!["a", "b", ""]);
    assert_eq!(ending, "CRLF");
    assert_eq!(cursor, "3:1");
}

#[test]
fn overlay_and_settings_commands_request_settings() {
    let mut state = DesktopAppState::sample("zom");
    state.handle_command(CommandInvocation::from(WorkspaceAction::OpenSettings));
    assert_eq!(state.take_pending_ui_action(), Some(DesktopUiAction::OpenSettings));
    assert_eq!(state.take_pending_ui_action(), None);
}

fn listed_dir(name: &str, children: Vec<ListedEntry>) -> ListedEntry {
    ListedEntry { name: name.to_string(), kind: ListedKind::Directory, children }
}

fn listed_file(name: &str) -> ListedEntry {
    ListedEntry { name: name.to_string(), kind: ListedKind::File, children: Vec::new() }
}

fn child_paths(node: &FileTreeNode) -> Vec<&str> {
    node.children.iter().map(|node| node.path.as_str()).collect()
}

#[test]
fn from_workspace_root_loads_real_directory_entries() {
    let listing = vec![
        listed_file("Cargo.toml"),
        listed_dir("src", vec![listed_file("main.rs")]),
    ];

    let tree = FileTreeState::from_workspace_root("/tmp/zom-file-tree-load-real-directory", &listing);

    assert_eq!(tree.title, "EXPLORER");
    assert_eq!(tree.roots.len(), 1);
    assert_eq!(tree.roots[0].name, "zom-file-tree-load-real-directory");
    assert_eq!(tree.roots[0].path, "");
    assert!(tree.roots[0].is_expanded);
    assert_eq!(child_paths(&tree.roots[0]), vec!["src", "Cargo.toml"]);
    assert_eq!(child_paths(&tree.roots[0].children[0]), vec!["src/main.rs"]);
    assert!(!tree.roots[0].children[0].is_expanded);
    assert_eq!(tree.roots[0].children[0].kind, FileTreeNodeKind::Directory);
    assert_eq!(tree.roots[0].children[1].kind, FileTreeNodeKind::File);
}

#[test]
fn from_workspace_root_skips_common_generated_directories() {
    let listing = vec![
        listed_dir("target", vec![listed_dir("debug", vec![])]),
        listed_file("README.md"),
    ];

    let tree = FileTreeState::from_workspace_root("/tmp/zom-file-tree-skip-generated-directories", &listing);

    assert_eq!(child_paths(&tree.roots[0]), vec!["README.md"]);
}

#[test]
fn listing_orders_directories_first_by_lowercase_name() {
    let listing = vec![
        listed_file("b.txt"),
        listed_dir("Zeta", vec![]),
        listed_file("A.txt"),
        listed_dir("alpha", vec![listed_file("Y"), listed_file("x")]),
        listed_file(".DS_Store"),
        ListedEntry { name: "link".to_string(), kind: ListedKind::Other, children: Vec::new() },
        listed_dir(".git", vec![listed_file("HEAD")]),
        listed_dir("node_modules", vec![]),
        listed_file("target"),
    ];

    let tree = FileTreeState::from_workspace_root("/work/Demo", &listing);

    assert_eq!(tree.roots[0].name, "Demo");
    assert_eq!(child_paths(&tree.roots[0]), vec!["alpha", "Zeta", "A.txt", "b.txt", "target"]);
    assert_eq!(child_paths(&tree.roots[0].children[0]), vec!["alpha/x", "alpha/Y"]);
}

#[test]
fn listing_keeps_equal_names_in_listing_order() {
    let listing = vec![listed_file("readme"), listed_file("README"), listed_file("ReadMe")];

    let tree = FileTreeState::from_workspace_root("w", &listing);

    let names: Vec<&str> = tree.roots[0].children.iter().map(|node| node.name.as_str()).collect();
    assert_eq!(names, vec!["readme", "README", "ReadMe"]);
}

#[test]
fn listing_root_without_file_name_is_named_by_its_path() {
    let tree = FileTreeState::from_workspace_root("/", &Vec::new());
    assert_eq!(tree.roots[0].name, "/");
    assert!(tree.roots[0].children.is_empty());

    let tree = FileTreeState::from_workspace_root("a\\b", &vec![listed_file("c\\d")]);
    assert_eq!(child_paths(&tree.roots[0]), vec!["c/d"]);
}

#[test]
fn skipped_entries_are_told_apart_by_kind() {
    assert!(is_skipped_entry(".git", ListedKind::Directory));
    assert!(is_skipped_entry("node_modules", ListedKind::Directory));
    assert!(is_skipped_entry("target", ListedKind::Directory));
    assert!(!is_skipped_entry("target", ListedKind::File));
    assert!(is_skipped_entry(".DS_Store", ListedKind::File));
    assert!(!is_skipped_entry(".DS_Store", ListedKind::Directory));
    assert!(is_skipped_entry("anything", ListedKind::Other));
    assert!(!is_skipped_entry("src", ListedKind::Directory));
}

#[test]
fn switch_project_reloads_real_file_tree_and_clears_tabs() {
    let listing = vec![listed_dir("src", vec![listed_file("lib.rs")])];
    let mut state = DesktopAppState::sample("zom");
    state.pane.tabs.push(test_tab("old.rs"));
    state.pane.active_tab_index = Some(0);

    let root = "/tmp/zom-desktop-state-switch-project-tree";
    state.switch_project(root, FileTreeState::from_workspace_root(root, &listing));

    assert_eq!(state.project_root, root);
    assert_eq!(state.pane.tabs.len(), 0);
    assert!(state.pane.active_tab_index.is_none());
    assert_eq!(child_paths(&state.file_tree.roots[0]), vec!["src"]);
}

#[test]
fn open_file_reads_from_selected_project_root() {
    let listing = vec![listed_dir("src", vec![listed_file("main.rs")])];
    let root = "/tmp/zom-desktop-state-open-file-from-root";
    let mut state = DesktopAppState::sample("zom");
    state.switch_project(root, FileTreeState::from_workspace_root(root, &listing));
    state.handle_file_tree_node_activate("src/main.rs", FileTreeNodeKind::File);

    let path = state.take_pending_file_open().expect("the file should be queued for opening");
    assert_eq!(workspace_file_absolute_path(&state.project_root, &path), "/tmp/zom-desktop-state-open-file-from-root/src/main.rs");
    let (lines, ending, cursor) = buffer_preview("fn main() {}");
    state.open_file_in_pane(&path, lines, ending, cursor);

    let active_tab = state.pane.active_tab().expect("active tab should exist");
    assert_eq!(active_tab.relative_path, "src/main.rs");
    assert_eq!(active_tab.buffer_lines[0], "fn main() {}");
}

fn nested_tree() -> FileTreeState {
    let mut src = directory("src", "src", false, vec![file("lib.rs", "src/lib.rs")]);
    src.is_selected = true;
    FileTreeState {
        title: "EXPLORER".into(),
        roots: vec![directory("demo", "", true, vec![src, file("README.md", "README.md")])],
    }
}

#[test]
fn expanding_then_collapsing_the_selected_directory_gives_the_tree_back() {
    let mut tree = nested_tree();
    tree.expand_or_descend_selected();
    assert!(tree.roots[0].children[0].is_expanded);
    tree.collapse_or_ascend_selected();
    assert_eq!(tree, nested_tree());
}
