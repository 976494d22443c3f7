//! High-level editor commands on top of transactions: text insertion, caret
//! movement, selection extension, deletion, indentation and find / replace.

use vstd::prelude::*;

use crate::command::invocation::{EditorAction, EditorInvocation, FindReplaceAction, FindReplaceRequest};
use crate::position::Position;
use crate::selection::{sel_end, sel_start, Selection};
use crate::text::{
    addressable, byte_len, byte_offset, char_floor, clamp_position_spec, clamp_selection_to_text,
    index_of_position, index_of_target, lemma_byte_offset_full, lemma_byte_offset_mono,
    lemma_char_floor_of_offset, lemma_row_col_bounds, lemma_seek_bounds, line_count, line_len,
    offset_at_index, position_at_offset, position_of, row_col, row_col_at, TextBuffer,
};

use super::search::{find_pattern, find_pattern_spec, regex_expand_all, regex_expand_spans, regex_find_all, regex_find_spans};
use super::state::{DocVersion, EditorState};
use super::transaction::{
    apply_transaction, change_view, changes_view, lemma_char_floor_past_end, transaction_bumps, transaction_outcome,
    ChangeView, TextChange, TransactionMeta, TransactionSource, TransactionSpec,
};

verus! {

/// The result of an editor command.
#[derive(Debug, Clone, PartialEq, Eq)]
pub struct InvocationResult {
    /// The state after the command.
    pub state: EditorState,
    /// The caret after the command (the active end of the final selection).
    pub cursor: Position,
}

/// A command outcome as plain values: `(text, selection, version, cursor)`.
pub type Outcome = (Seq<char>, (Position, Position), u64, Position);

/// The editor state as plain values: `(text, selection, version)`.
pub type StateView = (Seq<char>, Selection, u64);

/// The plain outcome of an invocation result.
pub open spec fn outcome_of(r: InvocationResult) -> Outcome {
    (r.state@.0, r.state@.1@, r.state@.2, r.cursor)
}

/// The outcome that leaves the state untouched; the cursor it reports is
/// the active end of the state's selection, as in every result.
pub open spec fn noop(st: StateView) -> Outcome {
    (st.0, st.1@, st.2, st.1@.1)
}

/// The state with its version counted from 0.
pub open spec fn at_zero(st: StateView) -> StateView {
    (st.0, st.1, 0u64)
}

/// Room for the version to count up as often as the outcome `o`, taken from
/// version 0, did: a command that changes nothing needs none.
pub open spec fn fits(st: StateView, o: Outcome) -> bool {
    st.2 + o.2 <= u64::MAX
}

/// Room for the version to count up during an invocation at `cursor`.
pub open spec fn invocation_headroom(st: StateView, cursor: Position, invocation: EditorInvocation) -> bool {
    fits(st, invocation_outcome(at_zero(st), cursor, invocation))
}

/// The character index a position resolves to.
pub open spec fn idx(s: Seq<char>, p: Position) -> int {
    index_of_position(s, p.row as int, p.col as int)
}

/// The position of a character index.
pub open spec fn pos_at(s: Seq<char>, i: int) -> Position {
    position_of(row_col(s, i))
}

/// A caret as a selection value.
pub open spec fn caret(p: Position) -> Selection {
    Selection::spec_new(p, p)
}

/// The selection a command works on: the current selection (clamped onto the
/// text) when its active end is the caller's clamped cursor, else a caret at
/// that cursor.
pub open spec fn working_selection(st: StateView, cursor: Position) -> Selection {
    let c = clamp_position_spec(st.0, cursor);
    let a = clamp_position_spec(st.0, st.1@.0);
    let b = clamp_position_spec(st.0, st.1@.1);
    if b == c { Selection::spec_new(a, b) } else { caret(c) }
}

/// Runs a transaction on the state with `sel` installed, guarded by the
/// current version; a rejected transaction leaves the state unchanged. The
/// cursor reported is the active end of the resulting state's selection.
pub open spec fn with_selection(st: StateView, sel: Selection, changes: Seq<ChangeView>, explicit: Option<Selection>) -> Outcome {
    match transaction_outcome(st.0, sel, st.2, changes, explicit, Some(DocVersion::spec_of(st.2))) {
        Ok(t) => (t.0, t.1, t.2, t.1.1),
        Err(_) => noop(st),
    }
}

/// Installs `next` as the selection.
pub open spec fn select_outcome(st: StateView, sel: Selection, next: Selection) -> Outcome {
    with_selection(st, sel, Seq::empty(), Some(next))
}

/// Replaces the selected range by `text`.
pub open spec fn insert_outcome(st: StateView, sel: Selection, text: Seq<char>) -> Outcome {
    let from = byte_offset(st.0, idx(st.0, sel_start(sel))) as int;
    let to = byte_offset(st.0, idx(st.0, sel_end(sel))) as int;
    with_selection(st, sel, seq![(from, to, text)], None)
}

/// One character to the left of `p` (or `p` at the start).
pub open spec fn left_of(s: Seq<char>, p: Position) -> Position {
    if idx(s, p) <= 0 { p } else { pos_at(s, idx(s, p) - 1) }
}

/// One character to the right of `p` (or `p` at the end).
pub open spec fn right_of(s: Seq<char>, p: Position) -> Position {
    if idx(s, p) >= s.len() { p } else { pos_at(s, idx(s, p) + 1) }
}

/// `delta` rows up or down, keeping the column when the row is long enough.
pub open spec fn vertical(s: Seq<char>, p: Position, delta: int) -> Position {
    let count = if line_count(s) < 1 { 1 } else { line_count(s) };
    let target = p.row + delta;
    let row = if target < 0 { 0 } else if target > count - 1 { count - 1 } else { target };
    Position {
        row: row as u32,
        col: if (p.col as int) < line_len(s, row) { p.col } else { line_len(s, row) as u32 },
    }
}

/// The end of `p`'s row.
pub open spec fn row_end(s: Seq<char>, p: Position) -> Position {
    Position { row: p.row, col: line_len(s, p.row as int) as u32 }
}

/// Whether a character separates words.
pub open spec fn is_word_boundary(c: char) -> bool {
    is_white_space(c) || c == '_' || c == '-' || c == '/' || c == '\\' || c == '.'
        || c == ',' || c == ';' || c == ':' || c == '(' || c == ')'
}

/// The Unicode `White_Space` property.
pub open spec fn is_white_space(c: char) -> bool {
    let u = c as u32;
    (0x9 <= u <= 0xD) || u == 0x20 || u == 0x85 || u == 0xA0 || u == 0x1680
        || (0x2000 <= u <= 0x200A) || u == 0x2028 || u == 0x2029 || u == 0x202F
        || u == 0x205F || u == 0x3000
}

/// Moves back from `i` over characters whose boundary-ness is `want`.
pub open spec fn skip_back(s: Seq<char>, i: int, want: bool) -> int
    decreases i,
{
    if i > 0 && i <= s.len() && is_word_boundary(s[i - 1]) == want {
        skip_back(s, i - 1, want)
    } else {
        i
    }
}

/// Moves forward from `i` over characters whose boundary-ness is `want`.
pub open spec fn skip_forward(s: Seq<char>, i: int, want: bool) -> int
    decreases s.len() - i,
{
    if 0 <= i < s.len() && is_word_boundary(s[i]) == want {
        skip_forward(s, i + 1, want)
    } else {
        i
    }
}

/// Deletes the characters `[i, j)` (by index).
pub open spec fn delete_indices(st: StateView, sel: Selection, i: int, j: int) -> Outcome {
    with_selection(st, sel, seq![(byte_offset(st.0, i) as int, byte_offset(st.0, j) as int, Seq::<char>::empty())], None)
}

/// Backward deletion: the selection if any, else the previous character.
pub open spec fn delete_backward_outcome(st: StateView, sel: Selection) -> Outcome {
    let i = idx(st.0, sel@.1);
    if sel@.0 != sel@.1 {
        insert_outcome(st, sel, Seq::empty())
    } else if i <= 0 {
        noop(st)
    } else {
        delete_indices(st, sel, i - 1, i)
    }
}

/// Forward deletion: the selection if any, else the next character.
pub open spec fn delete_forward_outcome(st: StateView, sel: Selection) -> Outcome {
    let i = idx(st.0, sel@.1);
    if sel@.0 != sel@.1 {
        insert_outcome(st, sel, Seq::empty())
    } else if i >= st.0.len() {
        noop(st)
    } else {
        delete_indices(st, sel, i, i + 1)
    }
}

/// Backward word deletion: the selection if any, else the separators before
/// the caret and then the word before them.
pub open spec fn delete_word_backward_outcome(st: StateView, sel: Selection) -> Outcome {
    let i = idx(st.0, sel@.1);
    let start = skip_back(st.0, skip_back(st.0, i, true), false);
    if sel@.0 != sel@.1 {
        insert_outcome(st, sel, Seq::empty())
    } else if start == i {
        noop(st)
    } else {
        delete_indices(st, sel, start, i)
    }
}

/// Forward word deletion: the selection if any, else the separators after
/// the caret and then the word after them.
pub open spec fn delete_word_forward_outcome(st: StateView, sel: Selection) -> Outcome {
    let i = idx(st.0, sel@.1);
    let end = skip_forward(st.0, skip_forward(st.0, i, true), false);
    if sel@.0 != sel@.1 {
        insert_outcome(st, sel, Seq::empty())
    } else if end == i {
        noop(st)
    } else {
        delete_indices(st, sel, i, end)
    }
}

// ---------------------------------------------------------------------------
// Executable helpers
// ---------------------------------------------------------------------------

/// The result that leaves the state as it is.
fn unchanged(state: &EditorState) -> (r: InvocationResult)
    ensures outcome_of(r) == noop(state@),
{
    InvocationResult { state: state.clone(), cursor: state.selection().active() }
}

/// A transaction that counts the version up counts it up once when started
/// from version 0.
proof fn lemma_with_selection_steps(st: StateView, sel: Selection, cs: Seq<ChangeView>, explicit: Option<Selection>)
    ensures
        transaction_bumps(st.0, sel, st.2, cs, explicit, Some(DocVersion::spec_of(st.2)))
            ==> with_selection(at_zero(st), sel, cs, explicit).2 == 1,
{
    broadcast use DocVersion::lemma_spec_of;
}

/// Runs a transaction with `selection` installed and the version guard set;
/// a rejected transaction leaves the state unchanged.
fn apply_with_selection(state: &EditorState, selection: Selection, changes: Vec<TextChange>, explicit: Option<Selection>) -> (r: InvocationResult)
    requires fits(state@, with_selection(at_zero(state@), selection, changes_view(changes@), explicit)),
    ensures outcome_of(r) == with_selection(state@, selection, changes_view(changes@), explicit),
{
    broadcast use DocVersion::lemma_spec_of, DocVersion::lemma_view_injective;
    let ghost cs = changes_view(changes@);
    let working = EditorState::from_parts(state.buffer().clone(), selection, state.version());
    let spec = TransactionSpec {
        changes,
        selection: explicit,
        meta: TransactionMeta::from_source(TransactionSource::Keyboard),
        expected_version: Some(working.version()),
    };
    proof { lemma_with_selection_steps(state@, selection, cs, explicit); }
    match apply_transaction(&working, spec) {
        Ok(result) => {
            let cursor = result.state.selection().active();
            InvocationResult { state: result.state, cursor }
        },
        Err(_) => unchanged(state),
    }
}

/// Installs `next` as the selection.
fn apply_selection_move(state: &EditorState, selection: Selection, next: Selection) -> (r: InvocationResult)
    requires fits(state@, select_outcome(at_zero(state@), selection, next)),
    ensures outcome_of(r) == select_outcome(state@, selection, next),
{
    let r = apply_with_selection(state, selection, Vec::new(), Some(next));
    proof { assert(changes_view(Seq::<TextChange>::empty()) =~= Seq::<ChangeView>::empty()); }
    r
}

/// A vector holding one change.
fn one_change(from: usize, to: usize, insert: &str) -> (v: Vec<TextChange>)
    ensures changes_view(v@) == seq![(from as int, to as int, insert@)],
{
    let mut v: Vec<TextChange> = Vec::new();
    v.push(TextChange::new(from, to, insert));
    proof { assert(changes_view(v@) =~= seq![(from as int, to as int, insert@)]); }
    v
}

/// The character index and byte offset a position resolves to.
fn resolve(buffer: &TextBuffer, p: Position) -> (r: (usize, usize))
    ensures
        r.0 == idx(buffer@, p),
        r.0 <= buffer@.len(),
        r.1 == byte_offset(buffer@, r.0 as int),
{
    let chars = buffer.chars();
    let i = index_of_target(chars, p.row as u64, p.col as u64);
    (i, offset_at_index(chars, i))
}

/// The position of a character index.
fn position_at_index(buffer: &TextBuffer, i: usize) -> (p: Position)
    requires i <= buffer@.len(),
    ensures p == pos_at(buffer@, i as int),
{
    let (row, col) = row_col_at(buffer.chars(), i);
    Position { row, col }
}

/// Replaces the selected range by `text`.
fn insert_text(state: &EditorState, selection: Selection, text: &str) -> (r: InvocationResult)
    requires fits(state@, insert_outcome(at_zero(state@), selection, text@)),
    ensures outcome_of(r) == insert_outcome(state@, selection, text@),
{
    let range = selection.range();
    let (_i, from) = resolve(state.buffer(), range.start());
    let (_j, to) = resolve(state.buffer(), range.end());
    apply_with_selection(state, selection, one_change(from, to, text), None)
}

/// Deletes the characters `[i, j)` by index.
fn delete_range_by_index(state: &EditorState, selection: Selection, i: usize, j: usize) -> (r: InvocationResult)
    requires fits(state@, delete_indices(at_zero(state@), selection, i as int, j as int)), i <= j <= state@.0.len(),
    ensures outcome_of(r) == delete_indices(state@, selection, i as int, j as int),
{
    let chars = state.buffer().chars();
    let from = offset_at_index(chars, i);
    let to = offset_at_index(chars, j);
    proof { reveal_strlit(""); assert(""@ =~= Seq::<char>::empty()); }
    apply_with_selection(state, selection, one_change(from, to, ""), None)
}

fn left_position(state: &EditorState, p: Position) -> (q: Position)
    ensures q == left_of(state@.0, p),
{
    let (i, _o) = resolve(state.buffer(), p);
    if i == 0 { p } else { position_at_index(state.buffer(), i - 1) }
}

fn right_position(state: &EditorState, p: Position) -> (q: Position)
    ensures q == right_of(state@.0, p),
{
    let (i, _o) = resolve(state.buffer(), p);
    if i >= state.buffer().chars().len() { p } else { position_at_index(state.buffer(), i + 1) }
}

fn vertical_position(state: &EditorState, p: Position, delta: i64) -> (q: Position)
    requires -100 <= delta <= 100,
    ensures q == vertical(state@.0, p, delta as int),
{
    let buffer = state.buffer();
    let _chars = buffer.chars();
    let count = buffer.line_count();
    proof { lemma_row_col_bounds(buffer@, buffer@.len() as int); }
    let target: i64 = p.row as i64 + delta;
    let last: i64 = count as i64 - 1;
    let row: i64 = if target < 0 { 0 } else if target > last { last } else { target };
    let row32 = row as u32;
    let len = buffer.line_len(row32);
    Position { row: row32, col: if p.col < len { p.col } else { len } }
}

fn row_end_position(state: &EditorState, p: Position) -> (q: Position)
    ensures q == row_end(state@.0, p),
{
    Position { row: p.row, col: state.buffer().line_len(p.row) }
}

/// Whether a character has the Unicode `White_Space` property.
pub fn is_white_space_char(c: char) -> (b: bool)
    ensures b == is_white_space(c),
{
    let u = c as u32;
    (0x9 <= u && u <= 0xD) || u == 0x20 || u == 0x85 || u == 0xA0 || u == 0x1680
        || (0x2000 <= u && u <= 0x200A) || u == 0x2028 || u == 0x2029 || u == 0x202F
        || u == 0x205F || u == 0x3000
}

/// Whether a character separates words.
pub fn is_word_boundary_char(c: char) -> (b: bool)
    ensures b == is_word_boundary(c),
{
    is_white_space_char(c) || c == '_' || c == '-' || c == '/' || c == '\\' || c == '.'
        || c == ',' || c == ';' || c == ':' || c == '(' || c == ')'
}

fn skip_back_exec(chars: &Vec<char>, i: usize, want: bool) -> (r: usize)
    requires i <= chars@.len(),
    ensures r == skip_back(chars@, i as int, want), r <= i,
{
    let mut k = i;
    while k > 0 && is_word_boundary_char(chars[k - 1]) == want
        invariant
            k <= i <= chars@.len(),
            skip_back(chars@, k as int, want) == skip_back(chars@, i as int, want),
        decreases k,
    {
        k = k - 1;
    }
    k
}

fn skip_forward_exec(chars: &Vec<char>, i: usize, want: bool) -> (r: usize)
    requires i <= chars@.len(),
    ensures r == skip_forward(chars@, i as int, want), i <= r <= chars@.len(),
{
    let mut k = i;
    while k < chars.len() && is_word_boundary_char(chars[k]) == want
        invariant
            i <= k <= chars@.len(),
            skip_forward(chars@, k as int, want) == skip_forward(chars@, i as int, want),
        decreases chars@.len() - k,
    {
        k = k + 1;
    }
    k
}

fn delete_backward(state: &EditorState, selection: Selection) -> (r: InvocationResult)
    requires fits(state@, delete_backward_outcome(at_zero(state@), selection)),
    ensures outcome_of(r) == delete_backward_outcome(state@, selection),
{
    if !selection.is_caret() {
        proof { reveal_strlit(""); assert(""@ =~= Seq::<char>::empty()); }
        return insert_text(state, selection, "");
    }
    let (i, _o) = resolve(state.buffer(), selection.active());
    if i == 0 {
        return unchanged(state);
    }
    delete_range_by_index(state, selection, i - 1, i)
}

fn delete_forward(state: &EditorState, selection: Selection) -> (r: InvocationResult)
    requires fits(state@, delete_forward_outcome(at_zero(state@), selection)),
    ensures outcome_of(r) == delete_forward_outcome(state@, selection),
{
    if !selection.is_caret() {
        proof { reveal_strlit(""); assert(""@ =~= Seq::<char>::empty()); }
        return insert_text(state, selection, "");
    }
    let (i, _o) = resolve(state.buffer(), selection.active());
    if i >= state.buffer().chars().len() {
        return unchanged(state);
    }
    delete_range_by_index(state, selection, i, i + 1)
}

fn delete_word_backward(state: &EditorState, selection: Selection) -> (r: InvocationResult)
    requires fits(state@, delete_word_backward_outcome(at_zero(state@), selection)),
    ensures outcome_of(r) == delete_word_backward_outcome(state@, selection),
{
    if !selection.is_caret() {
        proof { reveal_strlit(""); assert(""@ =~= Seq::<char>::empty()); }
        return insert_text(state, selection, "");
    }
    let chars = state.buffer().chars();
    let (i, _o) = resolve(state.buffer(), selection.active());
    let after_separators = skip_back_exec(chars, i, true);
    let start = skip_back_exec(chars, after_separators, false);
    if start == i {
        return unchanged(state);
    }
    delete_range_by_index(state, selection, start, i)
}

fn delete_word_forward(state: &EditorState, selection: Selection) -> (r: InvocationResult)
    requires fits(state@, delete_word_forward_outcome(at_zero(state@), selection)),
    ensures outcome_of(r) == delete_word_forward_outcome(state@, selection),
{
    if !selection.is_caret() {
        proof { reveal_strlit(""); assert(""@ =~= Seq::<char>::empty()); }
        return insert_text(state, selection, "");
    }
    let chars = state.buffer().chars();
    let (i, _o) = resolve(state.buffer(), selection.active());
    let after_separators = skip_forward_exec(chars, i, true);
    let end = skip_forward_exec(chars, after_separators, false);
    if end == i {
        return unchanged(state);
    }
    delete_range_by_index(state, selection, i, end)
}


// ---------------------------------------------------------------------------
// Newline, indentation
// ---------------------------------------------------------------------------

/// The number of leading spaces and tabs of `t`.
pub open spec fn leading_ws_len(t: Seq<char>) -> nat
    decreases t.len(),
{
    if t.len() > 0 && (t[0] == ' ' || t[0] == '\t') { 1 + leading_ws_len(t.drop_first()) } else { 0 }
}

/// The characters of `row` (clamped onto the text).
pub open spec fn row_text(s: Seq<char>, row: int) -> Seq<char> {
    let i0 = index_of_position(s, row, 0);
    let i1 = index_of_position(s, row, line_len(s, row));
    if i0 <= i1 { s.subrange(i0, i1) } else { Seq::empty() }
}

/// The indentation (leading spaces and tabs) of `row`.
pub open spec fn indent_of(s: Seq<char>, row: int) -> Seq<char> {
    row_text(s, row).take(leading_ws_len(row_text(s, row)) as int)
}

/// Inserts a line break followed by the indentation of the caret's row.
pub open spec fn newline_outcome(st: StateView, sel: Selection) -> Outcome {
    insert_outcome(st, sel, seq!['\n'] + indent_of(st.0, sel@.1.row as int))
}

/// The rows a selection touches; a selection ending at column 0 of a later
/// row does not touch that row.
pub open spec fn touched_rows(sel: Selection) -> (int, int) {
    if sel@.0 == sel@.1 {
        (sel@.1.row as int, sel@.1.row as int)
    } else {
        let start = sel_start(sel);
        let end = sel_end(sel);
        let end_row = if end.col == 0 && end.row > start.row { end.row - 1 } else { end.row as int };
        (start.row as int, if end_row < start.row { start.row as int } else { end_row })
    }
}

/// The start offset of `row` (clamped onto the text).
pub open spec fn row_start_offset(s: Seq<char>, row: int) -> int {
    byte_offset(s, index_of_position(s, row, 0)) as int
}

/// A tab inserted at the start of each of the rows `first..=last`.
pub open spec fn indent_changes(s: Seq<char>, first: int, last: int) -> Seq<ChangeView> {
    Seq::new((last - first + 1) as nat, |k: int| (row_start_offset(s, first + k), row_start_offset(s, first + k), seq!['\t']))
}

/// Indentation: a tab at the caret, or one at the start of every touched row.
pub open spec fn indent_outcome(st: StateView, sel: Selection) -> Outcome {
    if sel@.0 == sel@.1 {
        insert_outcome(st, sel, seq!['\t'])
    } else {
        with_selection(st, sel, indent_changes(st.0, touched_rows(sel).0, touched_rows(sel).1), None)
    }
}

/// The number of leading spaces of `t`, at most `limit`.
pub open spec fn leading_spaces(t: Seq<char>, limit: int) -> nat
    decreases t.len(),
{
    if limit > 0 && t.len() > 0 && t[0] == ' ' { 1 + leading_spaces(t.drop_first(), limit - 1) } else { 0 }
}

/// How many characters outdenting removes from a row: a leading tab, or up to
/// four leading spaces.
pub open spec fn removable_prefix(t: Seq<char>) -> nat {
    if t.len() > 0 && t[0] == '\t' { 1 } else { leading_spaces(t, 4) }
}

/// Outdents the rows `row..=last` one transaction at a time; returns the
/// state, the current selection and whether anything changed.
pub open spec fn outdent_rows(st: StateView, cur: Selection, row: int, last: int, changed: bool) -> (StateView, Selection, bool)
    decreases last + 1 - row,
{
    if row > last {
        (st, cur, changed)
    } else {
        let s = st.0;
        let remove = removable_prefix(row_text(s, row));
        if remove == 0 {
            outdent_rows(st, cur, row + 1, last, changed)
        } else {
            let start = row_start_offset(s, row);
            let o = with_selection(st, cur, seq![(start, start + remove, Seq::<char>::empty())], None);
            let osel = o.1;
            let next = Selection::spec_new(osel.0, osel.1);
            outdent_rows((o.0, next, o.2), next, row + 1, last, true)
        }
    }
}

/// Outdentation of the caret's row or of every touched row.
pub open spec fn outdent_outcome(st: StateView, sel: Selection) -> Outcome {
    let rows = touched_rows(sel);
    let r = outdent_rows(st, sel, rows.0, rows.1, false);
    let rst = r.0;
    if !r.2 { noop(st) } else { (rst.0, rst.1@, rst.2, r.1@.1) }
}

fn leading_ws_len_exec(chars: &Vec<char>, from: usize, to: usize) -> (n: usize)
    requires from <= to <= chars@.len(),
    ensures n == leading_ws_len(chars@.subrange(from as int, to as int)), from + n <= to,
{
    let ghost t = chars@.subrange(from as int, to as int);
    let mut k = to;
    let mut n: usize = 0;
    // Count from the end backwards: the length of the run starting at `k`.
    while k > from
        invariant
            from <= k <= to <= chars@.len(),
            n == leading_ws_len(chars@.subrange(k as int, to as int)),
            k + n <= to,
        decreases k - from,
    {
        let c = chars[k - 1];
        proof {
            assert(chars@.subrange(k - 1, to as int).drop_first() =~= chars@.subrange(k as int, to as int));
        }
        if c == ' ' || c == '\t' {
            n = n + 1;
        } else {
            n = 0;
        }
        k = k - 1;
    }
    n
}

/// The characters `[i0, i1)` of the row, and their bounds.
fn row_bounds(buffer: &TextBuffer, row: u32) -> (r: (usize, usize))
    ensures
        r.0 == index_of_position(buffer@, row as int, 0),
        r.1 == index_of_position(buffer@, row as int, line_len(buffer@, row as int)),
        r.0 <= buffer@.len(), r.1 <= buffer@.len(),
{
    let chars = buffer.chars();
    let len = buffer.line_len(row);
    let i0 = index_of_target(chars, row as u64, 0);
    let i1 = index_of_target(chars, row as u64, len as u64);
    (i0, i1)
}

fn insert_newline(state: &EditorState, selection: Selection) -> (r: InvocationResult)
    requires fits(state@, newline_outcome(at_zero(state@), selection)),
    ensures outcome_of(r) == newline_outcome(state@, selection),
{
    let buffer = state.buffer();
    let chars = buffer.chars();
    let (i0, i1) = row_bounds(buffer, selection.active().row);
    let mut text = String::new();
    crate::text::string_push(&mut text, '\n');
    let ghost s = buffer@;
    let ghost row = selection@.1.row as int;
    if i0 <= i1 {
        let n = leading_ws_len_exec(chars, i0, i1);
        let mut k: usize = 0;
        while k < n
            invariant
                i0 + n <= i1 <= chars@.len(),
                k <= n,
                text@ == seq!['\n'] + chars@.subrange(i0 as int, i1 as int).take(k as int),
            decreases n - k,
        {
            crate::text::string_push(&mut text, chars[i0 + k]);
            proof {
                assert(chars@.subrange(i0 as int, i1 as int).take(k + 1)
                    =~= chars@.subrange(i0 as int, i1 as int).take(k as int).push(chars@[i0 + k]));
            }
            k = k + 1;
        }
    } else {
        proof { assert(text@ =~= seq!['\n'] + Seq::<char>::empty().take(0)); }
    }
    proof {
        assert(text@ =~= seq!['\n'] + indent_of(s, row));
    }
    insert_text(state, selection, text.as_str())
}

fn touched_row_range(selection: Selection) -> (r: (u32, u32))
    ensures r.0 == touched_rows(selection).0, r.1 == touched_rows(selection).1, r.0 <= r.1,
{
    if selection.is_caret() {
        let row = selection.active().row;
        return (row, row);
    }
    let start = selection.start();
    let end = selection.end();
    let mut end_row = end.row;
    if end.col == 0 && end_row > start.row {
        end_row = end_row - 1;
    }
    (start.row, if end_row < start.row { start.row } else { end_row })
}

fn insert_indent(state: &EditorState, selection: Selection) -> (r: InvocationResult)
    requires fits(state@, indent_outcome(at_zero(state@), selection)),
    ensures outcome_of(r) == indent_outcome(state@, selection),
{
    if selection.is_caret() {
        proof { reveal_strlit("\t"); assert("\t"@ =~= seq!['\t']); }
        return insert_text(state, selection, "\t");
    }
    let (first, last) = touched_row_range(selection);
    let buffer = state.buffer();
    let chars = buffer.chars();
    let ghost s = buffer@;
    let mut changes: Vec<TextChange> = Vec::new();
    let mut row: u64 = first as u64;
    proof { assert(changes_view(changes@) =~= indent_changes(s, first as int, last as int).take(0)); }
    while row <= last as u64
        invariant
            s == buffer@,
            s == chars@,
            addressable(s),
            first <= row <= last + 1,
            changes_view(changes@) == indent_changes(s, first as int, last as int).take(row - first),
        decreases last + 1 - row,
    {
        let i = index_of_target(chars, row, 0);
        let off = offset_at_index(chars, i);
        proof { reveal_strlit("\t"); assert("\t"@ =~= seq!['\t']); }
        let ghost before = changes@;
        changes.push(TextChange::new(off, off, "\t"));
        proof {
            assert(changes_view(changes@) =~= changes_view(before).push(change_view(changes@.last())));
            assert(indent_changes(s, first as int, last as int).take(row - first + 1)
                =~= indent_changes(s, first as int, last as int).take(row - first).push(
                    indent_changes(s, first as int, last as int)[row - first]));
        }
        row = row + 1;
    }
    proof {
        assert(indent_changes(s, first as int, last as int).take(last - first + 1)
            =~= indent_changes(s, first as int, last as int));
    }
    apply_with_selection(state, selection, changes, None)
}

fn removable_prefix_exec(chars: &Vec<char>, from: usize, to: usize) -> (n: usize)
    requires from <= to <= chars@.len(),
    ensures
        n == removable_prefix(chars@.subrange(from as int, to as int)),
        from + n <= to,
        n <= 4,
        forall|k: int| from <= k < from + n ==> (chars@[k] == ' ' || chars@[k] == '\t'),
{
    let ghost t = chars@.subrange(from as int, to as int);
    if from < to && chars[from] == '\t' {
        return 1;
    }
    let mut n: usize = 0;
    proof { assert(t.skip(0) =~= t); }
    while n < 4 && from + n < to && chars[from + n] == ' '
        invariant
            t == chars@.subrange(from as int, to as int),
            from + n <= to <= chars@.len(),
            n <= 4,
            leading_spaces(t, 4) == n + leading_spaces(t.skip(n as int), 4 - n),
            forall|k: int| from <= k < from + n ==> chars@[k] == ' ',
        decreases 4 - n,
    {
        proof {
            assert(t.skip(n as int).drop_first() =~= t.skip(n + 1));
            assert(t.skip(n as int)[0] == chars@[from + n]);
        }
        n = n + 1;
    }
    proof {
        if n < 4 && from + n < to {
            assert(t.skip(n as int)[0] == chars@[from + n]);
        }
    }
    n
}

/// A transaction run from version `v` counts up by the same step, and gives
/// the same text, selection and cursor, when run from another version `w`
/// with room for that step.
proof fn lemma_with_selection_shift(st: StateView, w: u64, sel: Selection, cs: Seq<ChangeView>, explicit: Option<Selection>)
    requires st.2 < u64::MAX,
    ensures ({
        let o = with_selection(st, sel, cs, explicit);
        let b = o.2 - st.2;
        &&& 0 <= b <= 1
        &&& w + b <= u64::MAX ==> with_selection((st.0, st.1, w), sel, cs, explicit) == (o.0, o.1, (w + b) as u64, o.3)
    }),
{
    broadcast use DocVersion::lemma_spec_of;
}

/// Outdenting row by row from version `st.2` counts up once at most per row.
proof fn lemma_outdent_bounds(st: StateView, cur: Selection, row: int, last: int, changed: bool)
    requires st.2 + (last + 1 - row) <= u64::MAX,
    ensures
        st.2 <= outdent_rows(st, cur, row, last, changed).0.2,
        row <= last + 1 ==> outdent_rows(st, cur, row, last, changed).0.2 <= st.2 + (last + 1 - row),
        row > last + 1 ==> outdent_rows(st, cur, row, last, changed).0.2 == st.2,
        !outdent_rows(st, cur, row, last, changed).2 ==> outdent_rows(st, cur, row, last, changed).0 == st,
        changed ==> outdent_rows(st, cur, row, last, changed).2,
    decreases last + 1 - row,
{
    if row <= last {
        let s = st.0;
        let remove = removable_prefix(row_text(s, row));
        if remove == 0 {
            lemma_outdent_bounds(st, cur, row + 1, last, changed);
        } else {
            let start = row_start_offset(s, row);
            let cs = seq![(start, start + remove, Seq::<char>::empty())];
            let o = with_selection(st, cur, cs, None);
            lemma_with_selection_shift(st, st.2, cur, cs, None);
            let next = Selection::spec_new(o.1.0, o.1.1);
            lemma_outdent_bounds((o.0, next, o.2), next, row + 1, last, true);
        }
    }
}

/// Outdenting from version `a + d` gives what outdenting from version `a`
/// gives, with the version `d` higher, where there is room for it.
proof fn lemma_outdent_shift(t: Seq<char>, s: Selection, a: u64, d: int, cur: Selection, row: int, last: int, changed: bool)
    requires
        row <= last + 1,
        a + (last + 1 - row) <= u64::MAX,
        d >= 0,
        d + outdent_rows((t, s, a), cur, row, last, changed).0.2 <= u64::MAX,
    ensures ({
        let ra = outdent_rows((t, s, a), cur, row, last, changed);
        outdent_rows((t, s, (a + d) as u64), cur, row, last, changed)
            == ((ra.0.0, ra.0.1, (ra.0.2 + d) as u64), ra.1, ra.2)
    }),
    decreases last + 1 - row,
{
    if row <= last {
        let remove = removable_prefix(row_text(t, row));
        if remove == 0 {
            lemma_outdent_shift(t, s, a, d, cur, row + 1, last, changed);
        } else {
            let start = row_start_offset(t, row);
            let cs = seq![(start, start + remove, Seq::<char>::empty())];
            let st = (t, s, a);
            let o = with_selection(st, cur, cs, None);
            lemma_with_selection_shift(st, (a + d) as u64, cur, cs, None);
            let next = Selection::spec_new(o.1.0, o.1.1);
            lemma_outdent_bounds((o.0, next, o.2), next, row + 1, last, true);
            lemma_outdent_shift(o.0, next, o.2, d, next, row + 1, last, true);
        }
    }
}

fn outdent(state: &EditorState, selection: Selection) -> (r: InvocationResult)
    requires fits(state@, outdent_outcome(at_zero(state@), selection)),
    ensures outcome_of(r) == outdent_outcome(state@, selection),
{
    broadcast use Selection::lemma_spec_new;
    let (first, last) = touched_row_range(selection);
    let mut current_state = state.clone();
    let mut current_selection = selection;
    let mut changed = false;
    let mut row: u64 = first as u64;
    let ghost rows = touched_rows(selection);
    proof { lemma_outdent_bounds(at_zero(state@), selection, first as int, last as int, false); }
    while row <= last as u64
        invariant
            first <= row <= last + 1,
            rows == touched_rows(selection),
            rows.0 == first, rows.1 == last,
            last <= u32::MAX,
            current_state@.2 + outdent_rows(at_zero(current_state@), current_selection, row as int, last as int, changed).0.2
                <= u64::MAX,
            outdent_rows(state@, selection, first as int, last as int, false)
                == outdent_rows(current_state@, current_selection, row as int, last as int, changed),
        decreases last + 1 - row,
    {
        let buffer = current_state.buffer();
        let chars = buffer.chars();
        let (i0, i1) = row_bounds(buffer, row as u32);
        let remove = if i0 <= i1 { removable_prefix_exec(chars, i0, i1) } else { 0 };
        proof {
            if i0 > i1 { assert(removable_prefix(Seq::<char>::empty()) == 0); }
        }
        if remove > 0 {
            let start = offset_at_index(chars, i0);
            proof {
                lemma_chars_one_byte(chars@, i0 as int, remove as int);
                assert(start + remove == byte_offset(chars@, i0 + remove));
            }
            let ghost before = current_state@;
            let ghost cur = current_selection;
            let ghost cs = seq![(start as int, start + remove, Seq::<char>::empty())];
            let ghost z = at_zero(before);
            let ghost o0 = with_selection(z, cur, cs, None);
            let ghost next0 = Selection::spec_new(o0.1.0, o0.1.1);
            proof {
                reveal_strlit("");
                assert(delete_indices(before, cur, i0 as int, i0 + remove) == with_selection(before, cur, cs, None));
                assert(delete_indices(z, cur, i0 as int, i0 + remove) == o0);
                assert(outdent_rows(z, cur, row as int, last as int, changed)
                    == outdent_rows((o0.0, next0, o0.2), next0, row + 1, last as int, true));
                lemma_with_selection_shift(z, before.2, cur, cs, None);
                lemma_outdent_bounds((o0.0, next0, o0.2), next0, row + 1, last as int, true);
                lemma_outdent_bounds((o0.0, next0, 0u64), next0, row + 1, last as int, true);
                lemma_outdent_shift(o0.0, next0, 0u64, o0.2 as int, next0, row + 1, last as int, true);
                assert((0u64 + o0.2) as u64 == o0.2);
            }
            let result = delete_range_by_index(&current_state, current_selection, i0, i0 + remove);
            current_selection = result.state.selection();
            proof {
                let o = outcome_of(result);
                assert(current_selection@ == o.1);
                let osel = o.1;
                Selection::lemma_spec_new(osel.0, osel.1);
                crate::selection::lemma_selection_view_injective(current_selection,
                    Selection::spec_new(osel.0, osel.1));
            }
            current_state = result.state;
            changed = true;
        }
        row = row + 1;
    }
    if !changed {
        return unchanged(state);
    }
    let cursor = current_selection.active();
    InvocationResult { cursor, state: current_state }
}

/// Spaces and tabs take one byte each.
proof fn lemma_chars_one_byte(s: Seq<char>, i: int, n: int)
    requires
        0 <= i, 0 <= n, i + n <= s.len(),
        forall|k: int| i <= k < i + n ==> (s[k] == ' ' || s[k] == '\t'),
    ensures byte_offset(s, i + n) == byte_offset(s, i) + n,
    decreases n,
{
    if n > 0 {
        lemma_chars_one_byte(s, i, n - 1);
        crate::text::lemma_byte_offset_step(s, i + n - 1);
        crate::text::lemma_utf8_width(s[i + n - 1]);
    }
}

// ---------------------------------------------------------------------------
// Find / replace
// ---------------------------------------------------------------------------

/// The index of the first match starting at or after `off`, from index `i`;
/// -1 when there is none.
pub open spec fn first_at_or_after(m: Seq<(usize, usize)>, off: int, i: int) -> int
    decreases m.len() - i,
{
    if i < 0 || i >= m.len() { -1 } else if m[i].0 >= off { i } else { first_at_or_after(m, off, i + 1) }
}

/// The index of the last match ending at or before `off`, scanning down from
/// index `i`; -1 when there is none.
pub open spec fn last_at_or_before(m: Seq<(usize, usize)>, off: int, i: int) -> int
    decreases i + 1,
{
    if i < 0 || i >= m.len() { -1 } else if m[i].1 <= off { i } else { last_at_or_before(m, off, i - 1) }
}

/// The index of the first match starting at or after `off`, wrapping
/// around to index 0.
pub open spec fn next_index(m: Seq<(usize, usize)>, off: int) -> int {
    let k = first_at_or_after(m, off, 0);
    if k >= 0 { k } else { 0 }
}

/// The next match from `off`, wrapping around to the first one.
pub open spec fn next_match_spec(m: Seq<(usize, usize)>, off: int) -> Option<(usize, usize)> {
    let k = first_at_or_after(m, off, 0);
    if k >= 0 { Some(m[k]) } else if m.len() > 0 { Some(m[0]) } else { None }
}

/// The previous match from `off`, wrapping around to the last one.
pub open spec fn prev_match_spec(m: Seq<(usize, usize)>, off: int) -> Option<(usize, usize)> {
    let k = last_at_or_before(m, off, m.len() - 1);
    if k >= 0 { Some(m[k]) } else if m.len() > 0 { Some(m.last()) } else { None }
}

/// Replacement items as plain values.
pub open spec fn reps_view(v: Seq<(usize, usize, String)>) -> Seq<(usize, usize, Seq<char>)> {
    v.map_values(|x: (usize, usize, String)| rep_item(x))
}

/// One replacement item as a plain value.
pub open spec fn rep_item(x: (usize, usize, String)) -> (usize, usize, Seq<char>) {
    (x.0, x.1, x.2@)
}

/// The spans of replacement items.
pub open spec fn rep_spans(r: Seq<(usize, usize, Seq<char>)>) -> Seq<(usize, usize)> {
    r.map_values(|x: (usize, usize, Seq<char>)| (x.0, x.1))
}

/// Replacement items as changes.
pub open spec fn reps_changes(r: Seq<(usize, usize, Seq<char>)>) -> Seq<ChangeView> {
    r.map_values(|x: (usize, usize, Seq<char>)| (x.0 as int, x.1 as int, x.2))
}

/// The outcome of a find / replace action, given the matches and the
/// replacement items that the search produced.
pub open spec fn find_with_matches_outcome(st: StateView, sel: Selection, cursor: Position,
    action: FindReplaceAction, m: Seq<(usize, usize)>, reps: Seq<(usize, usize, Seq<char>)>) -> Outcome
{
    let s = st.0;
    let off = crate::text::offset_of_position(s, cursor) as int;
    match action {
        FindReplaceAction::FindNext => match next_match_spec(m, off) {
            None => noop(st),
            Some(ft) => select_outcome(st, sel, Selection::spec_new(
                position_at_offset(s, ft.0 as int), position_at_offset(s, ft.1 as int))),
        },
        FindReplaceAction::FindPrev => match prev_match_spec(m, off) {
            None => noop(st),
            Some(ft) => select_outcome(st, sel, Selection::spec_new(
                position_at_offset(s, ft.0 as int), position_at_offset(s, ft.1 as int))),
        },
        FindReplaceAction::ReplaceNext => {
            let j = next_index(rep_spans(reps), off);
            if reps.len() == 0 {
                noop(st)
            } else {
                with_selection(st, caret(position_at_offset(s, reps[j].0 as int)),
                    seq![(reps[j].0 as int, reps[j].1 as int, reps[j].2)], None)
            }
        },
        FindReplaceAction::ReplaceAll => {
            if reps.len() == 0 {
                noop(st)
            } else {
                with_selection(st, caret(position_at_offset(s, reps[0].0 as int)), reps_changes(reps), None)
            }
        },
    }
}

/// The outcome of a find / replace request at the (clamped) cursor.
pub open spec fn find_replace_outcome(st: StateView, sel: Selection, cursor: Position, req: FindReplaceRequest) -> Outcome {
    let pattern = find_pattern_spec(req.query@, req.use_regex, req.whole_word);
    let ci = !req.case_sensitive;
    let found = regex_find_spans(pattern, ci, st.0);
    if req.query@.len() == 0 || found is None || found->0.len() == 0 {
        noop(st)
    } else {
        let m = found->0;
        let reps = if req.use_regex {
            match regex_expand_spans(pattern, ci, st.0, req.replacement@) {
                Some(v) => v,
                None => Seq::empty(),
            }
        } else {
            m.map_values(|x: (usize, usize)| (x.0, x.1, req.replacement@))
        };
        find_with_matches_outcome(st, sel, cursor, req.action, m, reps)
    }
}

/// The next match from `cursor_offset` (the first one starting there or
/// later), wrapping around to the first match.
pub fn next_match(matches: &Vec<(usize, usize)>, cursor_offset: usize) -> (r: Option<(usize, usize)>)
    ensures r == next_match_spec(matches@, cursor_offset as int),
{
    let mut i: usize = 0;
    while i < matches.len()
        invariant
            i <= matches@.len(),
            first_at_or_after(matches@, cursor_offset as int, 0)
                == first_at_or_after(matches@, cursor_offset as int, i as int),
        decreases matches@.len() - i,
    {
        if matches[i].0 >= cursor_offset {
            return Some(matches[i]);
        }
        i = i + 1;
    }
    if matches.len() > 0 { Some(matches[0]) } else { None }
}

/// The previous match from `cursor_offset` (the last one ending there or
/// earlier), wrapping around to the last match.
pub fn prev_match(matches: &Vec<(usize, usize)>, cursor_offset: usize) -> (r: Option<(usize, usize)>)
    ensures r == prev_match_spec(matches@, cursor_offset as int),
{
    let mut i: usize = matches.len();
    while i > 0
        invariant
            i <= matches@.len(),
            last_at_or_before(matches@, cursor_offset as int, matches@.len() - 1)
                == last_at_or_before(matches@, cursor_offset as int, i - 1),
        decreases i,
    {
        if matches[i - 1].1 <= cursor_offset {
            return Some(matches[i - 1]);
        }
        i = i - 1;
    }
    if matches.len() > 0 { Some(matches[matches.len() - 1]) } else { None }
}

/// The index of the next replacement from `cursor_offset`, wrapping around
/// to the first one; `None` when there is none.
fn next_replacement_index(replacements: &Vec<(usize, usize, String)>, cursor_offset: usize) -> (r: Option<usize>)
    ensures
        replacements@.len() == 0 ==> r is None,
        r matches Some(j) ==> j < replacements@.len(),
        replacements@.len() > 0 ==> r is Some
            && r->0 == next_index(rep_spans(reps_view(replacements@)), cursor_offset as int),
{
    let ghost spans = rep_spans(reps_view(replacements@));
    let mut i: usize = 0;
    while i < replacements.len()
        invariant
            spans == rep_spans(reps_view(replacements@)),
            spans.len() == replacements@.len(),
            i <= replacements@.len(),
            first_at_or_after(spans, cursor_offset as int, 0) == first_at_or_after(spans, cursor_offset as int, i as int),
        decreases replacements@.len() - i,
    {
        proof { assert(spans[i as int].0 == replacements@[i as int].0); }
        if replacements[i].0 >= cursor_offset {
            return Some(i);
        }
        i = i + 1;
    }
    if replacements.len() > 0 { Some(0) } else { None }
}

/// The next replacement item from `cursor_offset`, wrapping around to the
/// first one.
pub fn next_replacement(replacements: &Vec<(usize, usize, String)>, cursor_offset: usize) -> (r: Option<(usize, usize, String)>)
    ensures
        replacements@.len() == 0 ==> r is None,
        replacements@.len() > 0 ==> r is Some
            && rep_item(r->0) == reps_view(replacements@)[next_index(rep_spans(reps_view(replacements@)), cursor_offset as int)],
{
    match next_replacement_index(replacements, cursor_offset) {
        None => None,
        Some(j) => {
            let item = (replacements[j].0, replacements[j].1, replacements[j].2.clone());
            proof {
                assert(reps_view(replacements@)[j as int] == rep_item(item));
            }
            Some(item)
        },
    }
}

/// Selects `[from, to)` by byte offsets.
fn select_range_by_offsets(state: &EditorState, selection: Selection, from: usize, to: usize) -> (r: InvocationResult)
    requires fits(state@, select_outcome(at_zero(state@), selection, Selection::spec_new(
        position_at_offset(state@.0, from as int), position_at_offset(state@.0, to as int)))),
    ensures outcome_of(r) == select_outcome(state@, selection, Selection::spec_new(
        position_at_offset(state@.0, from as int), position_at_offset(state@.0, to as int))),
{
    let buffer = state.buffer();
    let next = Selection::new(buffer.position_at_or_before(from), buffer.position_at_or_before(to));
    apply_selection_move(state, selection, next)
}

/// Runs a find / replace action given the matches (byte spans) and the
/// replacement items that the search produced.
pub fn find_with_matches(state: &EditorState, selection: Selection, cursor: Position,
    action: FindReplaceAction, matches: &Vec<(usize, usize)>, replacements: &Vec<(usize, usize, String)>) -> (r: InvocationResult)
    requires fits(state@, find_with_matches_outcome(at_zero(state@), selection, cursor, action, matches@, reps_view(replacements@))),
    ensures outcome_of(r) == find_with_matches_outcome(state@, selection, cursor, action, matches@, reps_view(replacements@)),
{
    let offset = state.position_to_offset(cursor);
    proof { assert(rep_spans(reps_view(replacements@)).len() == replacements@.len()); }
    match action {
        FindReplaceAction::FindNext => match next_match(matches, offset) {
            None => unchanged(state),
            Some((from, to)) => select_range_by_offsets(state, selection, from, to),
        },
        FindReplaceAction::FindPrev => match prev_match(matches, offset) {
            None => unchanged(state),
            Some((from, to)) => select_range_by_offsets(state, selection, from, to),
        },
        FindReplaceAction::ReplaceNext => match next_replacement(replacements, offset) {
            None => unchanged(state),
            Some((from, to, replacement)) => {
                let caret_sel = Selection::caret(state.buffer().position_at_or_before(from));
                let changes = one_change(from, to, replacement.as_str());
                apply_with_selection(state, caret_sel, changes, None)
            },
        },
        FindReplaceAction::ReplaceAll => {
            if replacements.len() == 0 {
                return unchanged(state);
            }
            let mut changes: Vec<TextChange> = Vec::new();
            let mut i: usize = 0;
            proof { assert(changes_view(changes@) =~= reps_changes(reps_view(replacements@)).take(0)); }
            while i < replacements.len()
                invariant
                    i <= replacements@.len(),
                    changes_view(changes@) == reps_changes(reps_view(replacements@)).take(i as int),
                decreases replacements@.len() - i,
            {
                let ghost before = changes@;
                changes.push(TextChange::new(replacements[i].0, replacements[i].1, replacements[i].2.as_str()));
                proof {
                    assert(changes_view(changes@) =~= changes_view(before).push(change_view(changes@.last())));
                    assert(reps_changes(reps_view(replacements@)).take(i + 1)
                        =~= reps_changes(reps_view(replacements@)).take(i as int).push(
                            reps_changes(reps_view(replacements@))[i as int]));
                }
                i = i + 1;
            }
            proof {
                assert(reps_changes(reps_view(replacements@)).take(replacements@.len() as int)
                    =~= reps_changes(reps_view(replacements@)));
            }
            let caret_sel = Selection::caret(state.buffer().position_at_or_before(replacements[0].0));
            apply_with_selection(state, caret_sel, changes, None)
        },
    }
}

/// Runs a find / replace request: builds the pattern, searches the text,
/// and selects or replaces matches.
fn apply_find_replace_request(state: &EditorState, selection: Selection, cursor: Position, request: &FindReplaceRequest) -> (r: InvocationResult)
    requires fits(state@, find_replace_outcome(at_zero(state@), selection, cursor, *request)),
    ensures outcome_of(r) == find_replace_outcome(state@, selection, cursor, *request),
{
    if request.query.as_str().is_empty() {
        return unchanged(state);
    }
    let text = state.text();
    let pattern = find_pattern(request);
    let ci = !request.case_sensitive;
    let matches = match regex_find_all(pattern.as_str(), ci, text.as_str()) {
        None => { return unchanged(state); },
        Some(m) => m,
    };
    if matches.len() == 0 {
        return unchanged(state);
    }
    let ghost m = matches@;
    let ghost pat = pattern@;
    let mut replacements: Vec<(usize, usize, String)> = Vec::new();
    if request.use_regex {
        match regex_expand_all(pattern.as_str(), ci, text.as_str(), request.replacement.as_str()) {
            Some(v) => {
                replacements = v;
                proof {
                    let e = regex_expand_spans(pat, ci, state@.0, request.replacement@)->0;
                    assert(reps_view(replacements@) =~= e);
                }
            },
            None => {
                proof { assert(reps_view(replacements@) =~= Seq::<(usize, usize, Seq<char>)>::empty()); }
            },
        }
    } else {
        let mut i: usize = 0;
        while i < matches.len()
            invariant
                m == matches@,
                i <= matches@.len(),
                reps_view(replacements@) == m.map_values(|x: (usize, usize)| (x.0, x.1, request.replacement@)).take(i as int),
            decreases matches@.len() - i,
        {
            let ghost before = replacements@;
            replacements.push((matches[i].0, matches[i].1, request.replacement.clone()));
            proof {
                assert(reps_view(replacements@) =~= reps_view(before).push((matches@[i as int].0, matches@[i as int].1, request.replacement@)));
                assert(m.map_values(|x: (usize, usize)| (x.0, x.1, request.replacement@)).take(i + 1)
                    =~= m.map_values(|x: (usize, usize)| (x.0, x.1, request.replacement@)).take(i as int).push(
                        (m[i as int].0, m[i as int].1, request.replacement@)));
            }
            i = i + 1;
        }
        proof {
            assert(m.map_values(|x: (usize, usize)| (x.0, x.1, request.replacement@)).take(m.len() as int)
                =~= m.map_values(|x: (usize, usize)| (x.0, x.1, request.replacement@)));
        }
    }
    find_with_matches(state, selection, cursor, request.action, &matches, &replacements)
}

/// The start of `p`'s row.
pub open spec fn row_start(p: Position) -> Position {
    Position { row: p.row, col: 0 }
}

/// The whole text as a selection, from the origin to the end.
pub open spec fn whole_text(s: Seq<char>) -> Selection {
    Selection::spec_new(Position { row: 0, col: 0 }, position_at_offset(s, byte_len(s) as int))
}

/// Moves the caret by `next` when the selection is a caret; otherwise
/// collapses the selection onto `edge`.
pub open spec fn collapse_or_move(st: StateView, sel: Selection, edge: Position, next: Position) -> Outcome {
    if sel@.0 != sel@.1 { select_outcome(st, sel, caret(edge)) } else { select_outcome(st, sel, caret(next)) }
}

/// The outcome of an editor action on the working selection `sel`.
pub open spec fn action_outcome(st: StateView, sel: Selection, action: EditorAction) -> Outcome {
    let s = st.0;
    let anchor = sel@.0;
    let p = sel@.1;
    match action {
        EditorAction::InsertNewline => newline_outcome(st, sel),
        EditorAction::InsertIndent => indent_outcome(st, sel),
        EditorAction::Outdent => outdent_outcome(st, sel),
        EditorAction::MoveLeft => collapse_or_move(st, sel, sel_start(sel), left_of(s, p)),
        EditorAction::MoveRight => collapse_or_move(st, sel, sel_end(sel), right_of(s, p)),
        EditorAction::MoveUp => select_outcome(st, sel, caret(vertical(s, p, -1))),
        EditorAction::MoveDown => select_outcome(st, sel, caret(vertical(s, p, 1))),
        EditorAction::MoveToStart => select_outcome(st, sel, caret(row_start(p))),
        EditorAction::MoveToEnd => select_outcome(st, sel, caret(row_end(s, p))),
        EditorAction::MovePageUp => select_outcome(st, sel, caret(vertical(s, p, -20))),
        EditorAction::MovePageDown => select_outcome(st, sel, caret(vertical(s, p, 20))),
        EditorAction::SelectLeft => select_outcome(st, sel, Selection::spec_new(anchor, left_of(s, p))),
        EditorAction::SelectRight => select_outcome(st, sel, Selection::spec_new(anchor, right_of(s, p))),
        EditorAction::SelectUp => select_outcome(st, sel, Selection::spec_new(anchor, vertical(s, p, -1))),
        EditorAction::SelectDown => select_outcome(st, sel, Selection::spec_new(anchor, vertical(s, p, 1))),
        EditorAction::SelectToStart => select_outcome(st, sel, Selection::spec_new(anchor, row_start(p))),
        EditorAction::SelectToEnd => select_outcome(st, sel, Selection::spec_new(anchor, row_end(s, p))),
        EditorAction::SelectPageUp => select_outcome(st, sel, Selection::spec_new(anchor, vertical(s, p, -20))),
        EditorAction::SelectPageDown => select_outcome(st, sel, Selection::spec_new(anchor, vertical(s, p, 20))),
        EditorAction::DeleteBackward => delete_backward_outcome(st, sel),
        EditorAction::DeleteForward => delete_forward_outcome(st, sel),
        EditorAction::DeleteWordBackward => delete_word_backward_outcome(st, sel),
        EditorAction::DeleteWordForward => delete_word_forward_outcome(st, sel),
        EditorAction::SelectAll => select_outcome(st, sel, whole_text(s)),
        _ => noop(st),
    }
}

/// The outcome of an editor invocation at the caller's cursor.
pub open spec fn invocation_outcome(st: StateView, cursor: Position, invocation: EditorInvocation) -> Outcome {
    let c = clamp_position_spec(st.0, cursor);
    let sel = working_selection(st, cursor);
    match invocation {
        EditorInvocation::InsertText { text } => insert_outcome(st, sel, text@),
        EditorInvocation::FindReplace { request } => find_replace_outcome(st, sel, c, request),
        EditorInvocation::Action(action) => action_outcome(st, sel, action),
    }
}

/// Collapses a range selection onto `edge`, or moves the caret to `next`.
fn collapse_or_move_exec(state: &EditorState, selection: Selection, edge: Position, next: Position) -> (r: InvocationResult)
    requires fits(state@, collapse_or_move(at_zero(state@), selection, edge, next)),
    ensures outcome_of(r) == collapse_or_move(state@, selection, edge, next),
{
    if !selection.is_caret() {
        apply_selection_move(state, selection, Selection::caret(edge))
    } else {
        apply_selection_move(state, selection, Selection::caret(next))
    }
}

/// Runs one editor action on the working selection.
fn apply_action(state: &EditorState, selection: Selection, action: EditorAction) -> (r: InvocationResult)
    requires fits(state@, action_outcome(at_zero(state@), selection, action)),
    ensures outcome_of(r) == action_outcome(state@, selection, action),
{
    let anchor = selection.anchor();
    let active = selection.active();
    match action {
        EditorAction::InsertNewline => insert_newline(state, selection),
        EditorAction::InsertIndent => insert_indent(state, selection),
        EditorAction::Outdent => outdent(state, selection),
        EditorAction::MoveLeft => {
            let next = left_position(state, active);
            collapse_or_move_exec(state, selection, selection.start(), next)
        },
        EditorAction::MoveRight => {
            let next = right_position(state, active);
            collapse_or_move_exec(state, selection, selection.end(), next)
        },
        EditorAction::MoveUp => apply_selection_move(state, selection, Selection::caret(vertical_position(state, active, -1))),
        EditorAction::MoveDown => apply_selection_move(state, selection, Selection::caret(vertical_position(state, active, 1))),
        EditorAction::MoveToStart => apply_selection_move(state, selection, Selection::caret(Position::new(active.row, 0))),
        EditorAction::MoveToEnd => apply_selection_move(state, selection, Selection::caret(row_end_position(state, active))),
        EditorAction::MovePageUp => apply_selection_move(state, selection, Selection::caret(vertical_position(state, active, -20))),
        EditorAction::MovePageDown => apply_selection_move(state, selection, Selection::caret(vertical_position(state, active, 20))),
        EditorAction::SelectLeft => apply_selection_move(state, selection, Selection::new(anchor, left_position(state, active))),
        EditorAction::SelectRight => apply_selection_move(state, selection, Selection::new(anchor, right_position(state, active))),
        EditorAction::SelectUp => apply_selection_move(state, selection, Selection::new(anchor, vertical_position(state, active, -1))),
        EditorAction::SelectDown => apply_selection_move(state, selection, Selection::new(anchor, vertical_position(state, active, 1))),
        EditorAction::SelectToStart => apply_selection_move(state, selection, Selection::new(anchor, Position::new(active.row, 0))),
        EditorAction::SelectToEnd => apply_selection_move(state, selection, Selection::new(anchor, row_end_position(state, active))),
        EditorAction::SelectPageUp => apply_selection_move(state, selection, Selection::new(anchor, vertical_position(state, active, -20))),
        EditorAction::SelectPageDown => apply_selection_move(state, selection, Selection::new(anchor, vertical_position(state, active, 20))),
        EditorAction::DeleteBackward => delete_backward(state, selection),
        EditorAction::DeleteForward => delete_forward(state, selection),
        EditorAction::DeleteWordBackward => delete_word_backward(state, selection),
        EditorAction::DeleteWordForward => delete_word_forward(state, selection),
        EditorAction::SelectAll => {
            let end = state.offset_to_position(state.len());
            apply_selection_move(state, selection, Selection::new(Position::zero(), end))
        },
        _ => unchanged(state),
    }
}

/// The selection a command works on at the clamped `cursor`.
fn selection_for_invocation(state: &EditorState, cursor: Position) -> (s: Selection)
    ensures s == working_selection(state@, cursor),
{
    let c = state.buffer().clamp_position(cursor);
    let selection = clamp_selection_to_text(state.buffer(), state.selection());
    let active = selection.active();
    if active.row == c.row && active.col == c.col {
        Selection::new(selection.anchor(), active)
    } else {
        Selection::caret(c)
    }
}

/// Runs an editor invocation at the caller's cursor.
///
/// The cursor is first clamped onto the text. The current selection is used
/// when its (clamped) active end is that cursor; otherwise the command works
/// on a caret there, so that a stale selection is never edited.
pub fn apply_editor_invocation(state: &EditorState, cursor: Position, invocation: &EditorInvocation) -> (r: InvocationResult)
    requires invocation_headroom(state@, cursor, *invocation),
    ensures outcome_of(r) == invocation_outcome(state@, cursor, *invocation),
{
    let c = state.buffer().clamp_position(cursor);
    let selection = selection_for_invocation(state, cursor);
    match invocation {
        EditorInvocation::InsertText { text } => insert_text(state, selection, text.as_str()),
        EditorInvocation::FindReplace { request } => apply_find_replace_request(state, selection, c, request),
        EditorInvocation::Action(action) => apply_action(state, selection, *action),
    }
}
} // verus!
