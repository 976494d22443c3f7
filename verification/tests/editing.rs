use zom::command::invocation::{EditorAction, EditorInvocation, FindReplaceAction, FindReplaceRequest};
use zom::editing::buffer::EditorBuffer;
use zom::editing::invocation::apply_editor_invocation;
use zom::editing::protocol::{
    DocumentVersion, EditorToRuntimeEvent, LineRange, RuntimeErrorCode, RuntimeRequestId, RuntimeResponse,
    RuntimeToEditorRequest, TextDelta, ViewportInvalidationReason, ViewportState,
};
use zom::editing::runtime_bridge::{dispatch_runtime_request, dispatch_viewport_update};
use zom::editing::state::{DocVersion, EditorState};
use zom::editing::transaction::{apply_transaction, map_offset, ApplyError, TextChange, TransactionMeta, TransactionSource, TransactionSpec};
use zom::editing::viewport::{ViewportModel, ViewportMutation, ViewportUpdate};
use zom::position::Position;
use zom::selection::Selection;
use zom::text::TextBufferError;

fn state_with_selection(text: &str, selection: Selection) -> EditorState {
    let state = EditorState::from_text(text);
    EditorState::from_parts(state.buffer().clone(), selection, state.version())
}

#[test]
fn insert_newline_applies_auto_indent_strategy() {
    let state = state_with_selection("    foo", Selection::caret(Position::new(0, 7)));
    let result = apply_editor_invocation(&state, Position::new(0, 7), &EditorInvocation::from(EditorAction::InsertNewline));

    assert_eq!(result.state.text(), "    foo\n    ");
    assert_eq!(result.state.selection(), Selection::caret(Position::new(1, 4)));
    assert_eq!(result.cursor, Position::new(1, 4));
}

#[test]
fn insert_indent_indents_selected_lines() {
    let state = state_with_selection("a\nb\nc", Selection::new(Position::new(0, 0), Position::new(2, 0)));
    let result = apply_editor_invocation(&state, Position::new(2, 0), &EditorInvocation::from(EditorAction::InsertIndent));

    assert_eq!(result.state.text(), "\ta\n\tb\nc");
    assert_eq!(result.state.selection(), Selection::new(Position::new(0, 1), Position::new(2, 0)));
    assert_eq!(result.cursor, Position::new(2, 0));
}

#[test]
fn outdent_removes_indent_prefix_for_current_line() {
    let state = state_with_selection("\tfoo", Selection::caret(Position::new(0, 1)));
    let result = apply_editor_invocation(&state, Position::new(0, 1), &EditorInvocation::from(EditorAction::Outdent));

    assert_eq!(result.state.text(), "foo");
    assert_eq!(result.state.selection(), Selection::caret(Position::new(0, 0)));
    assert_eq!(result.cursor, Position::new(0, 0));
}

#[test]
fn outdent_removes_up_to_four_spaces_for_selected_lines() {
    let state = state_with_selection("    a\n  b\nc", Selection::new(Position::new(0, 0), Position::new(2, 1)));
    let result = apply_editor_invocation(&state, Position::new(2, 1), &EditorInvocation::from(EditorAction::Outdent));

    assert_eq!(result.state.text(), "a\nb\nc");
}

#[test]
fn shift_right_expands_selection_from_caret() {
    let state = state_with_selection("ab", Selection::caret(Position::new(0, 0)));
    let result = apply_editor_invocation(&state, Position::new(0, 0), &EditorInvocation::from(EditorAction::SelectRight));

    assert_eq!(result.state.selection(), Selection::new(Position::new(0, 0), Position::new(0, 1)));
    assert_eq!(result.cursor, Position::new(0, 1));
}

#[test]
fn insert_text_replaces_current_selection() {
    let state = state_with_selection("abcd", Selection::new(Position::new(0, 1), Position::new(0, 3)));
    let result = apply_editor_invocation(&state, Position::new(0, 3), &EditorInvocation::insert_text("X"));

    assert_eq!(result.state.text(), "aXd");
    assert_eq!(result.state.selection(), Selection::caret(Position::new(0, 2)));
    assert_eq!(result.cursor, Position::new(0, 2));
}

#[test]
fn delete_backward_deletes_selected_range_first() {
    let state = state_with_selection("abcd", Selection::new(Position::new(0, 1), Position::new(0, 3)));
    let result = apply_editor_invocation(&state, Position::new(0, 3), &EditorInvocation::from(EditorAction::DeleteBackward));

    assert_eq!(result.state.text(), "ad");
    assert_eq!(result.state.selection(), Selection::caret(Position::new(0, 1)));
    assert_eq!(result.cursor, Position::new(0, 1));
}

#[test]
fn move_left_collapses_selection_to_start_without_shift() {
    let state = state_with_selection("abcd", Selection::new(Position::new(0, 1), Position::new(0, 3)));
    let result = apply_editor_invocation(&state, Position::new(0, 3), &EditorInvocation::from(EditorAction::MoveLeft));

    assert_eq!(result.state.selection(), Selection::caret(Position::new(0, 1)));
    assert_eq!(result.cursor, Position::new(0, 1));
}

#[test]
fn move_right_collapses_selection_to_end_without_shift() {
    let state = state_with_selection("abcd", Selection::new(Position::new(0, 3), Position::new(0, 1)));
    let result = apply_editor_invocation(&state, Position::new(0, 1), &EditorInvocation::from(EditorAction::MoveRight));

    assert_eq!(result.state.selection(), Selection::caret(Position::new(0, 3)));
    assert_eq!(result.cursor, Position::new(0, 3));
}

#[test]
fn shift_up_and_down_extend_selection_while_preserving_anchor() {
    let state = state_with_selection("ab\ncd\nef", Selection::caret(Position::new(1, 1)));

    let up = apply_editor_invocation(&state, Position::new(1, 1), &EditorInvocation::from(EditorAction::SelectUp));
    assert_eq!(up.state.selection(), Selection::new(Position::new(1, 1), Position::new(0, 1)));
    assert_eq!(up.cursor, Position::new(0, 1));

    let down = apply_editor_invocation(&up.state, up.cursor, &EditorInvocation::from(EditorAction::SelectDown));
    assert_eq!(down.state.selection(), Selection::caret(Position::new(1, 1)));
    assert_eq!(down.cursor, Position::new(1, 1));
}

#[test]
fn shift_home_extends_selection_to_line_start() {
    let state = state_with_selection("ab\ncdef\ngh", Selection::caret(Position::new(1, 3)));
    let result = apply_editor_invocation(&state, Position::new(1, 3), &EditorInvocation::from(EditorAction::SelectToStart));

    assert_eq!(result.state.selection(), Selection::new(Position::new(1, 3), Position::new(1, 0)));
    assert_eq!(result.cursor, Position::new(1, 0));
}

#[test]
fn shift_end_extends_selection_to_line_end() {
    let state = state_with_selection("ab\ncdef\ngh", Selection::caret(Position::new(1, 1)));
    let result = apply_editor_invocation(&state, Position::new(1, 1), &EditorInvocation::from(EditorAction::SelectToEnd));

    assert_eq!(result.state.selection(), Selection::new(Position::new(1, 1), Position::new(1, 4)));
    assert_eq!(result.cursor, Position::new(1, 4));
}

#[test]
fn shift_page_up_and_down_extend_selection_while_preserving_anchor() {
    let text = (0..30).map(|index| format!("line-{index:02}")).collect::<Vec<_>>().join("\n");
    let state = state_with_selection(&text, Selection::caret(Position::new(25, 4)));

    let page_up = apply_editor_invocation(&state, Position::new(25, 4), &EditorInvocation::from(EditorAction::SelectPageUp));
    assert_eq!(page_up.state.selection(), Selection::new(Position::new(25, 4), Position::new(5, 4)));
    assert_eq!(page_up.cursor, Position::new(5, 4));

    let page_down =
        apply_editor_invocation(&page_up.state, page_up.cursor, &EditorInvocation::from(EditorAction::SelectPageDown));
    assert_eq!(page_down.state.selection(), Selection::caret(Position::new(25, 4)));
    assert_eq!(page_down.cursor, Position::new(25, 4));
}

#[test]
fn select_all_selects_full_document() {
    let state = state_with_selection("ab\ncd", Selection::caret(Position::new(1, 1)));
    let result = apply_editor_invocation(&state, Position::new(1, 1), &EditorInvocation::from(EditorAction::SelectAll));

    assert_eq!(result.state.selection(), Selection::new(Position::new(0, 0), Position::new(1, 2)));
    assert_eq!(result.cursor, Position::new(1, 2));
}

#[test]
fn move_right_steps_over_emoji_in_single_command() {
    let state = state_with_selection("a🙂b", Selection::caret(Position::new(0, 1)));
    let result = apply_editor_invocation(&state, Position::new(0, 1), &EditorInvocation::from(EditorAction::MoveRight));

    assert_eq!(result.state.selection(), Selection::caret(Position::new(0, 2)));
    assert_eq!(result.cursor, Position::new(0, 2));
}

#[test]
fn delete_backward_removes_full_emoji_scalar_value() {
    let state = state_with_selection("a🙂b", Selection::caret(Position::new(0, 2)));
    let result = apply_editor_invocation(&state, Position::new(0, 2), &EditorInvocation::from(EditorAction::DeleteBackward));

    assert_eq!(result.state.text(), "ab");
    assert_eq!(result.state.selection(), Selection::caret(Position::new(0, 1)));
    assert_eq!(result.cursor, Position::new(0, 1));
}

#[test]
fn delete_forward_removes_full_multibyte_cjk_scalar_value() {
    let state = state_with_selection("a中b", Selection::caret(Position::new(0, 1)));
    let result = apply_editor_invocation(&state, Position::new(0, 1), &EditorInvocation::from(EditorAction::DeleteForward));

    assert_eq!(result.state.text(), "ab");
    assert_eq!(result.state.selection(), Selection::caret(Position::new(0, 1)));
    assert_eq!(result.cursor, Position::new(0, 1));
}

#[test]
fn delete_backward_after_combining_mark_only_removes_last_scalar() {
    let state = state_with_selection("e\u{301}x", Selection::caret(Position::new(0, 2)));
    let result = apply_editor_invocation(&state, Position::new(0, 2), &EditorInvocation::from(EditorAction::DeleteBackward));

    assert_eq!(result.state.text(), "ex");
    assert_eq!(result.state.selection(), Selection::caret(Position::new(0, 1)));
    assert_eq!(result.cursor, Position::new(0, 1));
}

#[test]
fn find_next_selects_match_case_insensitive() {
    let state = state_with_selection("foo Bar baz", Selection::caret(Position::new(0, 0)));
    let result = apply_editor_invocation(
        &state,
        Position::new(0, 0),
        &EditorInvocation::find_replace(FindReplaceRequest::new("bar", "", FindReplaceAction::FindNext, false, false, false)),
    );

    assert_eq!(result.state.selection(), Selection::new(Position::new(0, 4), Position::new(0, 7)));
}

#[test]
fn find_next_with_whole_word_skips_substring_match() {
    let state = state_with_selection("foobar foo", Selection::caret(Position::new(0, 0)));
    let result = apply_editor_invocation(
        &state,
        Position::new(0, 0),
        &EditorInvocation::find_replace(FindReplaceRequest::new("foo", "", FindReplaceAction::FindNext, true, true, false)),
    );

    assert_eq!(result.state.selection(), Selection::new(Position::new(0, 7), Position::new(0, 10)));
}

#[test]
fn find_prev_wraps_to_last_match() {
    let state = state_with_selection("one two one", Selection::caret(Position::new(0, 0)));
    let result = apply_editor_invocation(
        &state,
        Position::new(0, 0),
        &EditorInvocation::find_replace(FindReplaceRequest::new("one", "", FindReplaceAction::FindPrev, true, false, false)),
    );

    assert_eq!(result.state.selection(), Selection::new(Position::new(0, 8), Position::new(0, 11)));
}

#[test]
fn replace_next_replaces_single_match_and_moves_cursor() {
    let state = state_with_selection("foo foo", Selection::caret(Position::new(0, 0)));
    let result = apply_editor_invocation(
        &state,
        Position::new(0, 0),
        &EditorInvocation::find_replace(FindReplaceRequest::new("foo", "bar", FindReplaceAction::ReplaceNext, true, false, false)),
    );

    assert_eq!(result.state.text(), "bar foo");
    assert_eq!(result.state.selection(), Selection::caret(Position::new(0, 3)));
}

#[test]
fn replace_all_supports_regex_groups() {
    let state = state_with_selection("a1 b2 c3", Selection::caret(Position::new(0, 0)));
    let result = apply_editor_invocation(
        &state,
        Position::new(0, 0),
        &EditorInvocation::find_replace(FindReplaceRequest::new(
            r"([a-z])(\d)",
            "$1-$2",
            FindReplaceAction::ReplaceAll,
            true,
            false,
            true,
        )),
    );

    assert_eq!(result.state.text(), "a-1 b-2 c-3");
}

#[test]
fn literal_search_escapes_metacharacters_and_empty_query_is_noop() {
    let state = state_with_selection("a.b axb", Selection::caret(Position::new(0, 0)));
    let result = apply_editor_invocation(
        &state,
        Position::new(0, 0),
        &EditorInvocation::find_replace(FindReplaceRequest::new(".", "", FindReplaceAction::FindNext, true, false, false)),
    );
    assert_eq!(result.state.selection(), Selection::new(Position::new(0, 1), Position::new(0, 2)));

    let unchanged = apply_editor_invocation(
        &state,
        Position::new(0, 0),
        &EditorInvocation::find_replace(FindReplaceRequest::new("", "z", FindReplaceAction::ReplaceAll, true, false, false)),
    );
    assert_eq!(unchanged.state.text(), "a.b axb");
    assert_eq!(unchanged.state.version(), state.version());
}

#[test]
fn stale_cursor_collapses_selection_and_copy_is_noop() {
    let state = state_with_selection("abcd", Selection::new(Position::new(0, 0), Position::new(0, 2)));
    let result = apply_editor_invocation(&state, Position::new(0, 3), &EditorInvocation::insert_text("X"));
    assert_eq!(result.state.text(), "abcXd");

    let copy = apply_editor_invocation(&state, Position::new(0, 2), &EditorInvocation::from(EditorAction::Copy));
    assert_eq!(copy.state, state);
    assert_eq!(copy.cursor, Position::new(0, 2));
}

#[test]
fn delete_word_backward_and_forward() {
    let state = state_with_selection("foo bar baz", Selection::caret(Position::new(0, 7)));
    let back = apply_editor_invocation(&state, Position::new(0, 7), &EditorInvocation::from(EditorAction::DeleteWordBackward));
    assert_eq!(back.state.text(), "foo  baz");
    let forward = apply_editor_invocation(&state, Position::new(0, 4), &EditorInvocation::from(EditorAction::DeleteWordForward));
    assert_eq!(forward.state.text(), "foo  baz");
}

#[test]
fn state_defaults_to_zero_version_and_caret() {
    let state = EditorState::from_text("abc");

    assert_eq!(state.version(), DocVersion::zero());
    assert_eq!(state.selection(), Selection::caret(Position::zero()));
    assert_eq!(state.text(), "abc");
}

#[test]
fn position_and_offset_mapping_roundtrip() {
    let state = EditorState::from_text("ab\n中d");
    let offset = state.position_to_offset(Position::new(1, 1));
    assert_eq!(state.offset_to_position(offset), Position::new(1, 1));
}

#[test]
fn selected_text_returns_none_for_caret_and_some_for_range() {
    let base = EditorState::from_text("abcd");
    let caret = EditorState::from_parts(base.buffer().clone(), Selection::caret(Position::new(0, 1)), base.version());
    assert_eq!(caret.selected_text(), None);

    let range = EditorState::from_parts(
        base.buffer().clone(),
        Selection::new(Position::new(0, 1), Position::new(0, 3)),
        base.version(),
    );
    assert_eq!(range.selected_text().as_deref(), Some("bc"));
}

#[test]
fn apply_transaction_inserts_text_and_maps_selection() {
    let state = EditorState::from_text("ab");
    let spec = TransactionSpec {
        changes: vec![TextChange::new(1, 1, "X")],
        selection: None,
        expected_version: Some(DocVersion::zero()),
        meta: TransactionMeta::from_source(TransactionSource::Keyboard),
    };

    let result = apply_transaction(&state, spec).expect("transaction should apply");
    assert_eq!(result.state.text(), "aXb");
    assert_eq!(result.state.selection(), Selection::caret(Position::zero()));
    assert_eq!(result.state.version(), DocVersion::from(1));
    assert!(result.is_document_changed);
}

#[test]
fn apply_transaction_with_explicit_selection_clamps_to_text_end() {
    let state = EditorState::from_text("abc");
    let spec = TransactionSpec {
        changes: vec![TextChange::new(3, 3, "d")],
        selection: Some(Selection::caret(Position::new(0, 99))),
        expected_version: None,
        meta: TransactionMeta::from_source(TransactionSource::Runtime),
    };

    let result = apply_transaction(&state, spec).expect("transaction should apply");
    assert_eq!(result.state.selection(), Selection::caret(Position::new(0, 4)));
}

#[test]
fn apply_transaction_rejects_version_mismatch() {
    let state = EditorState::from_text("abc");
    let spec = TransactionSpec {
        changes: vec![TextChange::new(0, 0, "X")],
        selection: None,
        expected_version: Some(DocVersion::from(7)),
        meta: TransactionMeta::from_source(TransactionSource::Runtime),
    };

    let err = apply_transaction(&state, spec).expect_err("version mismatch expected");
    assert_eq!(err, ApplyError::VersionMismatch { current_version: DocVersion::zero() });
}

#[test]
fn apply_transaction_rejects_overlapping_changes() {
    let state = EditorState::from_text("abcdef");
    let spec = TransactionSpec {
        changes: vec![TextChange::new(2, 4, "X"), TextChange::new(3, 5, "Y")],
        selection: None,
        expected_version: None,
        meta: TransactionMeta::from_source(TransactionSource::Keyboard),
    };

    let err = apply_transaction(&state, spec).expect_err("overlap should fail");
    assert_eq!(err, ApplyError::OverlappingChanges { previous_to: 4, current_from: 3 });
}

#[test]
fn apply_transaction_sorts_unsorted_changes_and_maps_selection() {
    let state = EditorState::from_text("abcdef");
    let spec = TransactionSpec {
        changes: vec![TextChange::new(4, 6, "YZ"), TextChange::new(0, 2, "WX")],
        selection: None,
        expected_version: Some(DocVersion::zero()),
        meta: TransactionMeta::from_source(TransactionSource::Runtime),
    };

    let result = apply_transaction(&state, spec).expect("transaction should apply");
    assert_eq!(result.state.text(), "WXcdYZ");
    assert_eq!(result.state.selection(), Selection::caret(Position::new(0, 2)));
    assert_eq!(result.state.version(), DocVersion::from(1));
}

#[test]
fn apply_transaction_selection_only_change_increments_version() {
    let state = EditorState::from_text("abcdef");
    let spec = TransactionSpec {
        changes: vec![],
        selection: Some(Selection::new(Position::new(0, 1), Position::new(0, 4))),
        expected_version: Some(DocVersion::zero()),
        meta: TransactionMeta::from_source(TransactionSource::Keyboard),
    };

    let result = apply_transaction(&state, spec).expect("selection-only transaction should apply");
    assert_eq!(result.state.text(), "abcdef");
    assert_eq!(result.state.selection(), Selection::new(Position::new(0, 1), Position::new(0, 4)));
    assert!(result.is_selection_changed);
    assert!(!result.is_document_changed);
    assert_eq!(result.state.version(), DocVersion::from(1));
}

#[test]
fn apply_transaction_rejects_change_with_split_multibyte_boundary() {
    let state = EditorState::from_text("a🙂b");
    let spec = TransactionSpec {
        changes: vec![TextChange::new(2, 5, "X")],
        selection: None,
        expected_version: None,
        meta: TransactionMeta::from_source(TransactionSource::Runtime),
    };

    let err = apply_transaction(&state, spec).expect_err("invalid change range expected");
    assert_eq!(
        err,
        ApplyError::InvalidChangeRange { index: 0, error: TextBufferError::NotCharBoundary { offset: 2 } }
    );
}

#[test]
fn empty_transaction_keeps_version_and_out_of_range_change_is_rejected() {
    let state = EditorState::from_text("abc");
    let noop = TransactionSpec {
        changes: vec![],
        selection: None,
        expected_version: Some(DocVersion::zero()),
        meta: TransactionMeta::from_source(TransactionSource::Keyboard),
    };
    let result = apply_transaction(&state, noop).expect("empty transaction applies");
    assert_eq!(result.state, state);
    assert!(!result.is_document_changed && !result.is_selection_changed);

    let out_of_range = TransactionSpec {
        changes: vec![TextChange::new(2, 9, "")],
        selection: None,
        expected_version: None,
        meta: TransactionMeta::from_source(TransactionSource::Keyboard),
    };
    assert_eq!(
        apply_transaction(&state, out_of_range).expect_err("range past the end"),
        ApplyError::InvalidChangeRange { index: 0, error: TextBufferError::OutOfBounds { offset: 9, len: 3 } }
    );
}

#[test]
fn request_snapshot_returns_full_state() {
    let mut state = EditorState::from_text("abc");
    let response = dispatch_runtime_request(&mut state, RuntimeToEditorRequest::RequestSnapshot);

    assert_eq!(
        response,
        RuntimeResponse::Snapshot(EditorToRuntimeEvent::Snapshot {
            version: DocumentVersion::zero(),
            text: "abc".to_string(),
            selection: Selection::caret(Position::zero()),
        })
    );
}

#[test]
fn apply_edits_acks_and_emits_delta() {
    let mut state = EditorState::from_text("ab");
    let response = dispatch_runtime_request(
        &mut state,
        RuntimeToEditorRequest::ApplyEdits {
            request_id: RuntimeRequestId::new("req-1"),
            expected_version: DocumentVersion::zero(),
            changes: vec![TextDelta::new(1, 1, "X")],
            selection: Some(Selection::caret(Position::new(0, 2))),
        },
    );

    assert_eq!(state.text(), "aXb");
    assert_eq!(state.version(), DocVersion::from(1));
    assert_eq!(
        response,
        RuntimeResponse::Ack {
            request_id: RuntimeRequestId::new("req-1"),
            version: DocumentVersion::from(1),
            event: Some(EditorToRuntimeEvent::Delta {
                version: DocumentVersion::from(1),
                changes: vec![TextDelta::new(1, 1, "X")],
                selection: Selection::caret(Position::new(0, 2)),
                dirty_lines: vec![LineRange::new(0, 1)],
            }),
        }
    );
}

#[test]
fn version_mismatch_returns_error() {
    let mut state = EditorState::from_text("ab");
    let response = dispatch_runtime_request(
        &mut state,
        RuntimeToEditorRequest::ApplyEdits {
            request_id: RuntimeRequestId::new("req-2"),
            expected_version: DocumentVersion::from(9),
            changes: vec![TextDelta::new(1, 1, "X")],
            selection: None,
        },
    );

    assert_eq!(
        response,
        RuntimeResponse::Error {
            request_id: RuntimeRequestId::new("req-2"),
            code: RuntimeErrorCode::VersionMismatch,
            current_version: DocumentVersion::zero(),
        }
    );
}

#[test]
fn set_selection_emits_dirty_lines_for_old_and_new_caret_rows() {
    let mut state = EditorState::from_text("a\nb\nc");
    let response = dispatch_runtime_request(
        &mut state,
        RuntimeToEditorRequest::SetSelection {
            request_id: RuntimeRequestId::new("req-3"),
            expected_version: Some(DocumentVersion::zero()),
            selection: Selection::caret(Position::new(2, 1)),
        },
    );

    assert_eq!(
        response,
        RuntimeResponse::Ack {
            request_id: RuntimeRequestId::new("req-3"),
            version: DocumentVersion::from(1),
            event: Some(EditorToRuntimeEvent::SelectionChanged {
                version: DocumentVersion::from(1),
                selection: Selection::caret(Position::new(2, 1)),
                dirty_lines: vec![LineRange::new(0, 1), LineRange::new(2, 3)],
            }),
        }
    );
}

#[test]
fn invalid_u64_offsets_are_rejected_as_invalid_request() {
    let mut state = EditorState::from_text("ab");
    let response = dispatch_runtime_request(
        &mut state,
        RuntimeToEditorRequest::ApplyEdits {
            request_id: RuntimeRequestId::new("req-4"),
            expected_version: DocumentVersion::zero(),
            changes: vec![TextDelta::new(u64::MAX, u64::MAX, "X")],
            selection: None,
        },
    );

    assert_eq!(
        response,
        RuntimeResponse::Error {
            request_id: RuntimeRequestId::new("req-4"),
            code: RuntimeErrorCode::InvalidRequest,
            current_version: DocumentVersion::zero(),
        }
    );
}

#[test]
fn viewport_invalidated_contract_variant_is_constructible() {
    let event = EditorToRuntimeEvent::ViewportInvalidated {
        version: DocumentVersion::from(7),
        dirty_lines: vec![LineRange::new(10, 20)],
        viewport: None,
        reason: ViewportInvalidationReason::LayoutChanged,
    };

    assert_eq!(
        event,
        EditorToRuntimeEvent::ViewportInvalidated {
            version: DocumentVersion::from(7),
            dirty_lines: vec![LineRange::new(10, 20)],
            viewport: None,
            reason: ViewportInvalidationReason::LayoutChanged,
        }
    );
}

#[test]
fn dispatch_viewport_update_emits_event_for_scroll_resize_and_wrap() {
    let state = EditorState::from_text("a\nb\nc\nd\ne");
    let mut model = ViewportModel::new();

    let first = dispatch_viewport_update(
        &state,
        &mut model,
        ViewportUpdate::new(ViewportState::new(0, 2), 120, ViewportMutation::Scroll),
    )
    .expect("first viewport update should emit event");
    assert_eq!(
        first,
        EditorToRuntimeEvent::ViewportInvalidated {
            version: DocumentVersion::zero(),
            dirty_lines: vec![LineRange::new(0, 2)],
            viewport: Some(ViewportState::new(0, 2)),
            reason: ViewportInvalidationReason::ViewportScrolled,
        }
    );

    let resized = dispatch_viewport_update(
        &state,
        &mut model,
        ViewportUpdate::new(ViewportState::new(0, 3), 120, ViewportMutation::Resize),
    )
    .expect("resize should emit event");
    assert_eq!(
        resized,
        EditorToRuntimeEvent::ViewportInvalidated {
            version: DocumentVersion::zero(),
            dirty_lines: vec![LineRange::new(0, 3)],
            viewport: Some(ViewportState::new(0, 3)),
            reason: ViewportInvalidationReason::ViewportResized,
        }
    );

    let wrap_changed = dispatch_viewport_update(
        &state,
        &mut model,
        ViewportUpdate::new(ViewportState::new(0, 3), 90, ViewportMutation::WrapWidthChanged),
    )
    .expect("wrap width change should emit event");
    assert_eq!(
        wrap_changed,
        EditorToRuntimeEvent::ViewportInvalidated {
            version: DocumentVersion::zero(),
            dirty_lines: vec![LineRange::new(0, 3)],
            viewport: Some(ViewportState::new(0, 3)),
            reason: ViewportInvalidationReason::WrapWidthChanged,
        }
    );
}

#[test]
fn emits_invalidation_when_scrolled() {
    let mut model = ViewportModel::new();
    let _ = model.apply(
        DocumentVersion::from(1),
        200,
        ViewportUpdate::new(ViewportState::new(0, 20), 120, ViewportMutation::Scroll),
    );

    let event = model
        .apply(
            DocumentVersion::from(2),
            200,
            ViewportUpdate::new(ViewportState::new(10, 20), 120, ViewportMutation::Scroll),
        )
        .expect("scroll should invalidate viewport");

    assert_eq!(
        event,
        EditorToRuntimeEvent::ViewportInvalidated {
            version: DocumentVersion::from(2),
            dirty_lines: vec![LineRange::new(0, 30)],
            viewport: Some(ViewportState::new(10, 20)),
            reason: ViewportInvalidationReason::ViewportScrolled,
        }
    );
}

#[test]
fn emits_invalidation_when_resized() {
    let mut model = ViewportModel::new();
    let _ = model.apply(
        DocumentVersion::from(1),
        200,
        ViewportUpdate::new(ViewportState::new(10, 20), 100, ViewportMutation::Scroll),
    );

    let event = model
        .apply(
            DocumentVersion::from(2),
            200,
            ViewportUpdate::new(ViewportState::new(10, 30), 100, ViewportMutation::Resize),
        )
        .expect("resize should invalidate viewport");

    assert_eq!(
        event,
        EditorToRuntimeEvent::ViewportInvalidated {
            version: DocumentVersion::from(2),
            dirty_lines: vec![LineRange::new(10, 40)],
            viewport: Some(ViewportState::new(10, 30)),
            reason: ViewportInvalidationReason::ViewportResized,
        }
    );
}

#[test]
fn emits_invalidation_when_wrap_width_changes() {
    let mut model = ViewportModel::new();
    let _ = model.apply(
        DocumentVersion::from(1),
        200,
        ViewportUpdate::new(ViewportState::new(10, 20), 100, ViewportMutation::Scroll),
    );

    let event = model
        .apply(
            DocumentVersion::from(2),
            200,
            ViewportUpdate::new(ViewportState::new(10, 20), 80, ViewportMutation::WrapWidthChanged),
        )
        .expect("wrap width change should invalidate viewport");

    assert_eq!(
        event,
        EditorToRuntimeEvent::ViewportInvalidated {
            version: DocumentVersion::from(2),
            dirty_lines: vec![LineRange::new(10, 30)],
            viewport: Some(ViewportState::new(10, 20)),
            reason: ViewportInvalidationReason::WrapWidthChanged,
        }
    );
}

#[test]
fn unchanged_viewport_produces_no_event() {
    let mut model = ViewportModel::new();
    let _ = model.apply(
        DocumentVersion::from(1),
        200,
        ViewportUpdate::new(ViewportState::new(10, 20), 100, ViewportMutation::Scroll),
    );

    let event = model.apply(
        DocumentVersion::from(2),
        200,
        ViewportUpdate::new(ViewportState::new(10, 20), 100, ViewportMutation::Scroll),
    );
    assert_eq!(event, None);
}

#[test]
fn viewport_is_clamped_to_document_line_count() {
    let mut model = ViewportModel::new();
    let event = model
        .apply(
            DocumentVersion::from(1),
            3,
            ViewportUpdate::new(ViewportState::new(20, 50), 100, ViewportMutation::Scroll),
        )
        .expect("first update should emit event");

    assert_eq!(
        event,
        EditorToRuntimeEvent::ViewportInvalidated {
            version: DocumentVersion::from(1),
            dirty_lines: vec![LineRange::new(2, 3)],
            viewport: Some(ViewportState::new(2, 1)),
            reason: ViewportInvalidationReason::ViewportScrolled,
        }
    );
}

#[test]
fn lines_and_line_ending_are_projected_from_text() {
    let buffer = EditorBuffer::from_text("a\r\n\r\nb\r\n");
    assert_eq!(buffer.line_ending(), "CRLF");
    assert_eq!(buffer.lines(), vec!["a", "", "b", ""]);
    assert_eq!(buffer.line_count(), 4);
}

#[test]
fn applied_edits_across_lines_mark_touched_lines_dirty() {
    let mut state = EditorState::from_text("a\nb\nc");
    let response = dispatch_runtime_request(
        &mut state,
        RuntimeToEditorRequest::ApplyEdits {
            request_id: RuntimeRequestId::new("req-5"),
            expected_version: DocumentVersion::zero(),
            changes: vec![TextDelta::new(1, 3, "")],
            selection: None,
        },
    );
    assert_eq!(state.text(), "a\nc");
    match response {
        RuntimeResponse::Ack { event: Some(EditorToRuntimeEvent::Delta { dirty_lines, .. }), .. } => {
            assert_eq!(dirty_lines, vec![LineRange::new(0, 2)]);
        }
        other => panic!("unexpected response {other:?}"),
    }
}

#[test]
fn map_offset_compares_each_change_in_old_text_coordinates() {
    let changes = vec![TextChange::new(0, 2, "a-1"), TextChange::new(3, 5, "b-2"), TextChange::new(6, 8, "c-3")];
    assert_eq!(map_offset(0, &changes), 3);
    assert_eq!(map_offset(1, &changes), 3);
    assert_eq!(map_offset(2, &changes), 3);
    assert_eq!(map_offset(4, &changes), 7);
    assert_eq!(map_offset(5, &changes), 7);
    assert_eq!(map_offset(9, &changes), 12);
}

#[test]
fn caret_inside_a_replaced_range_lands_after_the_replacement() {
    let state = EditorState::from_text("xxxxxxxxx");
    let spec = TransactionSpec {
        changes: vec![TextChange::new(0, 2, "a-1"), TextChange::new(3, 5, "b-2"), TextChange::new(6, 8, "c-3")],
        selection: None,
        expected_version: None,
        meta: TransactionMeta::from_source(TransactionSource::Runtime),
    };

    let result = apply_transaction(&state, spec).expect("transaction should apply");
    assert_eq!(result.state.text(), "a-1xb-2xc-3x");
    assert_eq!(result.state.selection(), Selection::caret(Position::new(0, 3)));
}

#[test]
fn change_that_leaves_the_text_as_it_is_is_no_document_change() {
    let state = EditorState::from_text("");
    let spec = TransactionSpec {
        changes: vec![TextChange::new(0, 0, "")],
        selection: None,
        expected_version: None,
        meta: TransactionMeta::from_source(TransactionSource::Keyboard),
    };

    let result = apply_transaction(&state, spec).expect("transaction should apply");
    assert!(!result.is_document_changed);
    assert!(!result.is_selection_changed);
    assert_eq!(result.state.version(), DocVersion::zero());
    assert_eq!(result.applied_changes.len(), 1);

    let state = EditorState::from_text("ab");
    let same = TransactionSpec {
        changes: vec![TextChange::new(0, 1, "a")],
        selection: None,
        expected_version: None,
        meta: TransactionMeta::from_source(TransactionSource::Keyboard),
    };
    let result = apply_transaction(&state, same).expect("transaction should apply");
    assert_eq!(result.state.text(), "ab");
    assert!(!result.is_document_changed);
    assert_eq!(result.state.selection(), Selection::caret(Position::new(0, 1)));
    assert!(result.is_selection_changed);
    assert_eq!(result.state.version(), DocVersion::from(1));
}

#[test]
fn actions_that_do_nothing_report_the_state_active_end() {
    let state = EditorState::from_text("abcd");
    let result = apply_editor_invocation(&state, Position::new(0, 2), &EditorInvocation::from(EditorAction::Undo));

    assert_eq!(result.state.text(), "abcd");
    assert_eq!(result.state.version(), state.version());
    assert_eq!(result.state.selection(), state.selection());
    assert_eq!(result.cursor, result.state.selection().active());
    assert_eq!(result.cursor, Position::zero());
}

fn at_last_version(text: &str) -> EditorState {
    let base = EditorState::from_text(text);
    EditorState::from_parts(base.buffer().clone(), base.selection(), DocVersion::from(u64::MAX))
}

#[test]
fn last_version_still_answers_what_does_not_count_up() {
    let state = at_last_version("abc");
    let stale = TransactionSpec {
        changes: vec![TextChange::new(0, 0, "X")],
        selection: None,
        expected_version: Some(DocVersion::from(7)),
        meta: TransactionMeta::from_source(TransactionSource::Runtime),
    };
    let err = apply_transaction(&state, stale).expect_err("version mismatch expected");
    assert_eq!(err, ApplyError::VersionMismatch { current_version: DocVersion::from(u64::MAX) });

    let empty = TransactionSpec {
        changes: vec![],
        selection: None,
        expected_version: None,
        meta: TransactionMeta::from_source(TransactionSource::Keyboard),
    };
    let result = apply_transaction(&state, empty).expect("empty transaction applies");
    assert_eq!(result.state.version(), DocVersion::from(u64::MAX));

    let undo = apply_editor_invocation(&state, Position::new(0, 2), &EditorInvocation::from(EditorAction::Undo));
    assert_eq!(undo.state.version(), DocVersion::from(u64::MAX));
    assert_eq!(undo.cursor, undo.state.selection().active());

    let mut runtime = at_last_version("abc");
    let response = dispatch_runtime_request(&mut runtime, RuntimeToEditorRequest::RequestSnapshot);
    assert!(matches!(response, RuntimeResponse::Snapshot(_)));
    assert_eq!(runtime.version(), DocVersion::from(u64::MAX));
}
