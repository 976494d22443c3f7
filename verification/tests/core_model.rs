use zom::command::invocation::{
    CommandInvocation, EditorAction, EditorInvocation, FileTreeAction, TabAction, WorkspaceAction,
};
use zom::focus::FocusTarget;
use zom::position::Position;
use zom::range::Range;
use zom::selection::{Selection, SelectionSet};

#[test]
fn default_position_is_zero() {
    assert_eq!(Position::default(), Position::new(0, 0));
}

#[test]
fn with_helpers_preserve_the_other_axis() {
    let position = Position::new(2, 4);

    assert_eq!(position.with_row(7), Position::new(7, 4));
    assert_eq!(position.with_col(9), Position::new(2, 9));
}

#[test]
fn normalized_orders_reversed_ranges() {
    let range = Range::new(Position::new(3, 5), Position::new(1, 2));

    assert_eq!(range.normalized(), Range::new(Position::new(1, 2), Position::new(3, 5)));
    assert_eq!(range.start(), Position::new(1, 2));
    assert_eq!(range.end(), Position::new(3, 5));
}

#[test]
fn empty_range_is_detected() {
    let point = Position::new(1, 1);
    assert!(Range::new(point, point).is_empty());
}

#[test]
fn contains_uses_half_open_semantics() {
    let range = Range::new(Position::new(0, 2), Position::new(0, 5));

    assert!(range.contains(Position::new(0, 2)));
    assert!(range.contains(Position::new(0, 4)));
    assert!(!range.contains(Position::new(0, 5)));
}

#[test]
fn contains_range_requires_full_coverage() {
    let outer = Range::new(Position::new(1, 0), Position::new(3, 0));
    let inner = Range::new(Position::new(1, 2), Position::new(2, 4));
    let overlapping = Range::new(Position::new(2, 8), Position::new(4, 1));

    assert!(outer.contains_range(inner));
    assert!(!outer.contains_range(overlapping));
}

#[test]
fn intersects_detects_overlap_but_respects_half_open_end() {
    let left = Range::new(Position::new(0, 0), Position::new(0, 3));
    let right = Range::new(Position::new(0, 2), Position::new(0, 5));
    let touching = Range::new(Position::new(0, 3), Position::new(0, 7));

    assert!(left.intersects(right));
    assert!(!left.intersects(touching));
}

#[test]
fn caret_selection_has_no_extent() {
    let caret = Selection::caret(Position::new(2, 3));

    assert!(caret.is_caret());
    assert_eq!(caret.range(), Range::new(Position::new(2, 3), Position::new(2, 3)));
}

#[test]
fn reversed_selection_normalizes_to_range() {
    let selection = Selection::new(Position::new(4, 8), Position::new(1, 2));

    assert!(selection.is_reversed());
    assert_eq!(selection.start(), Position::new(1, 2));
    assert_eq!(selection.end(), Position::new(4, 8));
}

#[test]
fn primary_selection_comes_from_first_entry() {
    let first = Selection::caret(Position::new(0, 0));
    let second = Selection::caret(Position::new(1, 1));
    let set = SelectionSet::new(vec![first, second]);

    assert_eq!(set.len(), 2);
    assert_eq!(set.primary(), Some(&first));
}

#[test]
fn selection_exposes_anchor_and_active_points() {
    let selection = Selection::new(Position::new(2, 1), Position::new(4, 3));

    assert_eq!(selection.anchor(), Position::new(2, 1));
    assert_eq!(selection.active(), Position::new(4, 3));
}

#[test]
fn selection_set_deduplicates_and_supports_primary_mutation() {
    let first = Selection::caret(Position::new(0, 0));
    let second = Selection::caret(Position::new(1, 1));
    let mut set = SelectionSet::new(vec![first, first, second]);

    assert_eq!(set.len(), 2);
    assert_eq!(set.iter().count(), 2);

    let primary = set.primary_mut().expect("primary selection should exist");
    *primary = Selection::caret(Position::new(9, 9));

    assert_eq!(set.primary(), Some(&Selection::caret(Position::new(9, 9))));
}

#[test]
fn push_keeps_selection_set_unique() {
    let first = Selection::caret(Position::new(0, 0));
    let mut set = SelectionSet::single(first);

    set.push(first);
    set.push(Selection::caret(Position::new(1, 2)));

    assert_eq!(set.len(), 2);
}

#[test]
fn file_tree_is_visibility_managed_and_visible_by_default() {
    assert!(FocusTarget::FileTreePanel.is_visibility_managed_panel());
    assert!(FocusTarget::FileTreePanel.is_visible_by_default());
}

#[test]
fn editor_is_not_visibility_managed_panel() {
    assert!(!FocusTarget::Editor.is_visibility_managed_panel());
    assert!(!FocusTarget::Editor.is_visible_by_default());
}

#[test]
fn command_kind_helpers_match_the_payload() {
    let editor = CommandInvocation::from(EditorAction::Undo);
    let workspace = CommandInvocation::from(WorkspaceAction::FocusPanel(FocusTarget::Palette));

    assert!(editor.is_editor());
    assert!(!editor.is_workspace());
    assert!(workspace.is_workspace());
    assert!(!workspace.is_editor());
}

#[test]
fn file_tree_and_tab_actions_are_promoted_to_top_level_command() {
    let file_tree = CommandInvocation::from(FileTreeAction::SelectNext);
    let tab = CommandInvocation::from(TabAction::CloseActiveTab);

    assert_eq!(
        file_tree,
        CommandInvocation::Workspace(WorkspaceAction::FileTree(FileTreeAction::SelectNext))
    );
    assert_eq!(tab, CommandInvocation::Workspace(WorkspaceAction::Tab(TabAction::CloseActiveTab)));
}

#[test]
fn editor_insert_text_keeps_payload() {
    let invocation = CommandInvocation::from(EditorInvocation::insert_text("hello"));

    assert_eq!(
        invocation,
        CommandInvocation::Editor(EditorInvocation::InsertText { text: "hello".to_string() })
    );
}

#[test]
fn managed_panels_are_exactly_the_workbench_panels() {
    let panels = FocusTarget::visibility_managed_panels();
    assert_eq!(panels.len(), 8);
    assert!(panels.iter().all(|p| p.is_visibility_managed_panel()));
    assert!(!FocusTarget::Palette.is_visibility_managed_panel());
    assert!(!FocusTarget::Setting.is_visibility_managed_panel());
    assert_eq!(FocusTarget::all().len(), 10);
}
