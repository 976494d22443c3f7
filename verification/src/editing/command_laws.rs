//! What the editor commands do, stated over their inputs and results:
//! which match a search selects or replaces, where vertical moves land, and what a word
//! deletion removes.

use vstd::prelude::*;

use crate::command::invocation::{EditorAction, EditorInvocation, FindReplaceAction};
use crate::position::Position;
use crate::selection::Selection;
use crate::text::{
    addressable, byte_offset, clamp_position_spec, index_of_position, lemma_byte_len_concat, lemma_byte_len_subrange,
    lemma_byte_offset_full, lemma_byte_offset_mono, lemma_char_floor_of_offset, lemma_row_col_bounds,
    lemma_row_col_mono, lemma_seek_bounds, line_count, offset_of_position, position_at_offset, range_error, row_col,
    seek,
};

use super::invocation::{
    action_outcome, caret, delete_indices, find_with_matches_outcome, first_at_or_after, idx, invocation_outcome,
    is_word_boundary, last_at_or_before, noop, rep_spans, select_outcome, skip_back, skip_forward, vertical,
    with_selection, working_selection, StateView,
};
use super::state::DocVersion;
use super::transaction::{apply_changes, sort_changes, validate_from, ChangeView};
use super::laws::lemma_select_outcome;

verus! {

// ---------------------------------------------------------------------------
// Find next / previous
// ---------------------------------------------------------------------------

/// The scan down from `i` finds the last match ending at or before `off`.
proof fn lemma_last_at_or_before(m: Seq<(usize, usize)>, off: int, i: int)
    requires -1 <= i < m.len(),
    ensures ({
        let k = last_at_or_before(m, off, i);
        &&& -1 <= k <= i
        &&& k >= 0 ==> m[k].1 <= off
        &&& forall|j: int| k < j <= i ==> (#[trigger] m[j]).1 > off
    }),
    decreases i + 1,
{
    if i >= 0 && m[i].1 > off {
        lemma_last_at_or_before(m, off, i - 1);
    }
}

/// The scan up from `i` finds the first match starting at or after `off`.
proof fn lemma_first_at_or_after(m: Seq<(usize, usize)>, off: int, i: int)
    requires 0 <= i <= m.len(),
    ensures ({
        let k = first_at_or_after(m, off, i);
        &&& k == -1 || i <= k < m.len()
        &&& k >= 0 ==> m[k].0 >= off
        &&& forall|j: int| i <= j < (if k >= 0 { k } else { m.len() as int }) ==> (#[trigger] m[j]).0 < off
    }),
    decreases m.len() - i,
{
    if i < m.len() && m[i].0 < off {
        lemma_first_at_or_after(m, off, i + 1);
    }
}

/// The selection of the match `x` (its byte span in the text).
pub open spec fn match_selection(s: Seq<char>, x: (usize, usize)) -> Selection {
    Selection::spec_new(position_at_offset(s, x.0 as int), position_at_offset(s, x.1 as int))
}

/// Law: "find previous" selects, of the matches (in document order), the
/// last one that ends at or before the cursor; when none does, it wraps
/// around to the last match; without matches it changes nothing. The
/// returned index is that match.
pub proof fn law_find_prev_selects_last_match_before_cursor(
    st: StateView,
    sel: Selection,
    cursor: Position,
    m: Seq<(usize, usize)>,
    reps: Seq<(usize, usize, Seq<char>)>,
) -> (k: int)
    ensures ({
        let off = offset_of_position(st.0, cursor) as int;
        let o = find_with_matches_outcome(st, sel, cursor, FindReplaceAction::FindPrev, m, reps);
        &&& m.len() == 0 ==> o == noop(st)
        &&& m.len() > 0 ==> {
            &&& 0 <= k < m.len()
            &&& o == select_outcome(st, sel, match_selection(st.0, m[k]))
            &&& m[k].1 <= off ==> forall|j: int| k < j < m.len() ==> (#[trigger] m[j]).1 > off
            &&& m[k].1 > off ==> k == m.len() - 1 && forall|j: int| 0 <= j < m.len() ==> (#[trigger] m[j]).1 > off
        }
    }),
{
    let off = offset_of_position(st.0, cursor) as int;
    lemma_last_at_or_before(m, off, m.len() - 1);
    let i = last_at_or_before(m, off, m.len() - 1);
    if i >= 0 { i } else { m.len() - 1 }
}

/// Law: "find next" selects, of the matches (in document order), the first
/// one that starts at or after the cursor; when none does, it wraps around
/// to the first match; without matches it changes nothing. The returned
/// index is that match.
pub proof fn law_find_next_selects_first_match_after_cursor(
    st: StateView,
    sel: Selection,
    cursor: Position,
    m: Seq<(usize, usize)>,
    reps: Seq<(usize, usize, Seq<char>)>,
) -> (k: int)
    ensures ({
        let off = offset_of_position(st.0, cursor) as int;
        let o = find_with_matches_outcome(st, sel, cursor, FindReplaceAction::FindNext, m, reps);
        &&& m.len() == 0 ==> o == noop(st)
        &&& m.len() > 0 ==> {
            &&& 0 <= k < m.len()
            &&& o == select_outcome(st, sel, match_selection(st.0, m[k]))
            &&& m[k].0 >= off ==> forall|j: int| 0 <= j < k ==> (#[trigger] m[j]).0 < off
            &&& m[k].0 < off ==> k == 0 && forall|j: int| 0 <= j < m.len() ==> (#[trigger] m[j]).0 < off
        }
    }),
{
    let off = offset_of_position(st.0, cursor) as int;
    lemma_first_at_or_after(m, off, 0);
    let i = first_at_or_after(m, off, 0);
    if i >= 0 { i } else { 0 }
}

/// Law: "replace next" replaces, of the replacement items (in document
/// order), the first one that starts at or after the cursor, wrapping around
/// to the first item when none does, and leaves a caret at its start;
/// without items it changes nothing. The returned index is that item.
pub proof fn law_replace_next_replaces_first_match_after_cursor(
    st: StateView,
    sel: Selection,
    cursor: Position,
    m: Seq<(usize, usize)>,
    reps: Seq<(usize, usize, Seq<char>)>,
) -> (k: int)
    ensures ({
        let off = offset_of_position(st.0, cursor) as int;
        let o = find_with_matches_outcome(st, sel, cursor, FindReplaceAction::ReplaceNext, m, reps);
        &&& reps.len() == 0 ==> o == noop(st)
        &&& reps.len() > 0 ==> {
            &&& 0 <= k < reps.len()
            &&& o == with_selection(st, caret(position_at_offset(st.0, reps[k].0 as int)),
                    seq![(reps[k].0 as int, reps[k].1 as int, reps[k].2)], None)
            &&& reps[k].0 >= off ==> forall|j: int| 0 <= j < k ==> (#[trigger] reps[j]).0 < off
            &&& reps[k].0 < off ==> k == 0 && forall|j: int| 0 <= j < reps.len() ==> (#[trigger] reps[j]).0 < off
        }
    }),
{
    let off = offset_of_position(st.0, cursor) as int;
    let spans = rep_spans(reps);
    lemma_first_at_or_after(spans, off, 0);
    assert forall|j: int| 0 <= j < reps.len() implies (#[trigger] reps[j]).0 == spans[j].0 by {}
    let i = first_at_or_after(spans, off, 0);
    if i >= 0 { i } else { 0 }
}

// ---------------------------------------------------------------------------
// Vertical moves
// ---------------------------------------------------------------------------

/// Seeking a row of the text (scanning from a coordinate on that row or an
/// earlier one) stops on that row, at or before the target column.
proof fn lemma_seek_row(s: Seq<char>, trow: int, tcol: int, i: int, r: int, c: int)
    requires
        0 <= i <= s.len(),
        row_col(s, i) == (r, c),
        0 <= c,
        0 <= tcol,
        r <= trow < line_count(s),
        r < trow || c <= tcol,
    ensures
        row_col(s, seek(s, trow, tcol, i, r, c)).0 == trow,
        row_col(s, seek(s, trow, tcol, i, r, c)).1 <= tcol,
    decreases s.len() - i,
{
    if i >= s.len() {
        assert(i == s.len());
    } else if r == trow && (c == tcol || s[i] == '\n') {
    } else if s[i] == '\n' {
        lemma_seek_row(s, trow, tcol, i + 1, r + 1, 0);
    } else {
        lemma_seek_row(s, trow, tcol, i + 1, r, c + 1);
    }
}

/// Clamping a position whose row is a row of the text keeps the row and
/// does not move the column to the right.
proof fn lemma_clamp_keeps_row(s: Seq<char>, p: Position)
    requires addressable(s), (p.row as int) < line_count(s),
    ensures
        clamp_position_spec(s, p).row == p.row,
        clamp_position_spec(s, p).col <= p.col,
{
    lemma_seek_row(s, p.row as int, p.col as int, 0, 0, 0);
    let i = index_of_position(s, p.row as int, p.col as int);
    lemma_seek_bounds(s, p.row as int, p.col as int, 0, 0, 0);
    lemma_row_col_bounds(s, i);
}

/// Every position of the text lies on one of its rows.
proof fn lemma_clamped_row(s: Seq<char>, p: Position)
    requires addressable(s),
    ensures (clamp_position_spec(s, p).row as int) < line_count(s),
{
    let i = index_of_position(s, p.row as int, p.col as int);
    lemma_seek_bounds(s, p.row as int, p.col as int, 0, 0, 0);
    lemma_row_col_bounds(s, i);
    lemma_row_col_bounds(s, s.len() as int);
    if i < s.len() {
        lemma_row_col_mono(s, i, s.len() as int);
    }
}

/// Rows are no longer than the text.
proof fn lemma_line_len_bounds(s: Seq<char>, row: int)
    ensures 0 <= crate::text::line_len(s, row) <= s.len(),
{
    if 0 <= row < line_count(s) {
        let i = index_of_position(s, row, s.len() as int + 1);
        lemma_seek_bounds(s, row, s.len() as int + 1, 0, 0, 0);
        lemma_row_col_bounds(s, i);
    }
}

/// The row a vertical move by `delta` rows lands on: `delta` rows from
/// `row`, kept within the rows of the text.
pub open spec fn target_row(s: Seq<char>, row: int, delta: int) -> int {
    if row + delta < 0 {
        0
    } else if row + delta > line_count(s) - 1 {
        line_count(s) - 1
    } else {
        row + delta
    }
}

/// The rows and the kind of move of the vertical actions: how many rows
/// each moves, and whether it keeps the anchor.
pub open spec fn vertical_move(a: EditorAction) -> Option<(int, bool)> {
    match a {
        EditorAction::MoveUp => Some((-1, false)),
        EditorAction::MoveDown => Some((1, false)),
        EditorAction::MovePageUp => Some((-20, false)),
        EditorAction::MovePageDown => Some((20, false)),
        EditorAction::SelectUp => Some((-1, true)),
        EditorAction::SelectDown => Some((1, true)),
        EditorAction::SelectPageUp => Some((-20, true)),
        EditorAction::SelectPageDown => Some((20, true)),
        _ => None,
    }
}

/// Law: the vertical moves leave the text as it is and put the active end
/// of the selection on the row one (or, for a page, twenty) rows down or up
/// from the caret's row, kept within the text: down to the last row at most,
/// up to the first row at least; the column never grows. Moving down never
/// lands above the caret's row, moving up never below it. A plain move
/// leaves a caret; extending keeps the anchor.
pub proof fn law_vertical_moves_land_on_target_row(st: StateView, cursor: Position, a: EditorAction)
    requires
        addressable(st.0),
        vertical_move(a) is Some,
    ensures ({
        let p = working_selection(st, cursor)@.1;
        let delta = vertical_move(a).unwrap().0;
        let extend = vertical_move(a).unwrap().1;
        let o = invocation_outcome(st, cursor, EditorInvocation::Action(a));
        &&& o.0 == st.0
        &&& o.1.1.row == target_row(st.0, p.row as int, delta)
        &&& o.1.1.col <= p.col
        &&& delta > 0 ==> o.1.1.row >= p.row
        &&& delta < 0 ==> o.1.1.row <= p.row
        &&& !extend ==> o.1.0 == o.1.1
        &&& extend ==> o.1.0 == working_selection(st, cursor)@.0
    }),
{
    broadcast use Selection::lemma_spec_new;
    let s = st.0;
    let sel = working_selection(st, cursor);
    let p = sel@.1;
    let delta = vertical_move(a).unwrap().0;
    let o = invocation_outcome(st, cursor, EditorInvocation::Action(a));
    assert(o == action_outcome(st, sel, a));
    crate::text::lemma_position_offset_roundtrip(s, st.1@.0, 0);
    crate::text::lemma_position_offset_roundtrip(s, st.1@.1, 0);
    crate::text::lemma_position_offset_roundtrip(s, cursor, 0);
    lemma_clamped_row(s, st.1@.1);
    lemma_clamped_row(s, cursor);
    assert((p.row as int) < line_count(s));
    lemma_row_col_bounds(s, s.len() as int);
    let q = vertical(s, p, delta);
    assert(q.row as int == target_row(s, p.row as int, delta));
    lemma_line_len_bounds(s, q.row as int);
    assert(q.col <= p.col);
    lemma_clamp_keeps_row(s, q);
    let next = if vertical_move(a).unwrap().1 { Selection::spec_new(sel@.0, q) } else { Selection::spec_new(q, q) };
    lemma_select_outcome(st, sel, next);
    match a {
        EditorAction::MoveUp | EditorAction::MoveDown | EditorAction::MovePageUp | EditorAction::MovePageDown =>
            assert(o == select_outcome(st, sel, super::invocation::caret(q))),
        _ => assert(o == select_outcome(st, sel, Selection::spec_new(sel@.0, q))),
    }
}

// ---------------------------------------------------------------------------
// Word deletion
// ---------------------------------------------------------------------------

/// Skipping forward from `i` passes exactly the maximal run of characters
/// whose boundary-ness is `want`.
proof fn lemma_skip_forward(s: Seq<char>, i: int, want: bool)
    requires 0 <= i <= s.len(),
    ensures ({
        let r = skip_forward(s, i, want);
        &&& i <= r <= s.len()
        &&& forall|k: int| i <= k < r ==> is_word_boundary(#[trigger] s[k]) == want
        &&& r < s.len() ==> is_word_boundary(s[r]) != want
    }),
    decreases s.len() - i,
{
    if i < s.len() && is_word_boundary(s[i]) == want {
        lemma_skip_forward(s, i + 1, want);
    }
}

/// Deleting the characters `[i, j)` of an addressable text leaves the text
/// before `i` followed by the text from `j` on.
proof fn lemma_delete_indices_text(st: StateView, sel: Selection, i: int, j: int)
    requires addressable(st.0), 0 <= i <= j <= st.0.len(),
    ensures delete_indices(st, sel, i, j).0 == st.0.subrange(0, i) + st.0.subrange(j, st.0.len() as int),
{
    broadcast use DocVersion::lemma_spec_of;
    let s = st.0;
    let from = byte_offset(s, i) as int;
    let to = byte_offset(s, j) as int;
    let c: ChangeView = (from, to, Seq::<char>::empty());
    let cs = seq![c];
    assert(sort_changes(cs) == cs) by {
        assert(cs.drop_last() =~= Seq::<ChangeView>::empty());
        reveal_with_fuel(sort_changes, 2);
    }
    lemma_byte_offset_mono(s, i, j);
    lemma_byte_offset_mono(s, j, s.len() as int);
    lemma_byte_offset_full(s);
    lemma_char_floor_of_offset(s, i);
    lemma_char_floor_of_offset(s, j);
    assert(range_error(s, from, to) is None);
    assert(validate_from(s, cs, 1) is None);
    assert(validate_from(s, cs, 0) is None);
    let t = s.subrange(0, i) + s.subrange(j, s.len() as int);
    assert(cs.drop_last() =~= Seq::<ChangeView>::empty());
    assert(apply_changes(s, cs) =~= t) by {
        reveal_with_fuel(super::transaction::spliced_prefix, 2);
        assert(s.skip(j) =~= s.subrange(j, s.len() as int));
        assert(s.subrange(0, i) + Seq::<char>::empty() =~= s.subrange(0, i));
    }
    lemma_byte_len_concat(s.subrange(0, i), s.subrange(j, s.len() as int));
    lemma_byte_len_subrange(s, 0, i);
    lemma_byte_len_subrange(s, j, s.len() as int);
    lemma_byte_offset_mono(s, 0, i);
    assert(addressable(t));
}

/// Law: at a caret, "delete word forward" removes the maximal run of
/// separators right after the caret and then the maximal run of word
/// characters after them: the text becomes what lies before the caret
/// followed by what lies after that word. When both runs are empty (the
/// caret at the end of the text) it changes nothing. The returned pair is
/// the end of the separators and the end of the word, as character indices.
pub proof fn law_delete_word_forward_removes_separators_then_word(st: StateView, cursor: Position) -> (r: (int, int))
    requires
        addressable(st.0),
        working_selection(st, cursor)@.0 == working_selection(st, cursor)@.1,
    ensures ({
        let s = st.0;
        let i = idx(s, working_selection(st, cursor)@.1);
        let o = invocation_outcome(st, cursor, EditorInvocation::Action(EditorAction::DeleteWordForward));
        &&& 0 <= i <= r.0 <= r.1 <= s.len()
        &&& forall|k: int| i <= k < r.0 ==> is_word_boundary(#[trigger] s[k])
        &&& r.0 < s.len() ==> !is_word_boundary(s[r.0])
        &&& forall|k: int| r.0 <= k < r.1 ==> !is_word_boundary(#[trigger] s[k])
        &&& r.1 < s.len() ==> is_word_boundary(s[r.1])
        &&& r.1 == i ==> o == noop(st)
        &&& r.1 > i ==> o.0 == s.subrange(0, i) + s.subrange(r.1, s.len() as int)
    }),
{
    let s = st.0;
    let sel = working_selection(st, cursor);
    let p = sel@.1;
    let i = idx(s, p);
    lemma_seek_bounds(s, p.row as int, p.col as int, 0, 0, 0);
    lemma_skip_forward(s, i, true);
    let j1 = skip_forward(s, i, true);
    lemma_skip_forward(s, j1, false);
    let end = skip_forward(s, j1, false);
    let o = invocation_outcome(st, cursor, EditorInvocation::Action(EditorAction::DeleteWordForward));
    assert(o == action_outcome(st, sel, EditorAction::DeleteWordForward));
    if end > i {
        lemma_delete_indices_text(st, sel, i, end);
    }
    (j1, end)
}

/// Skipping back from `i` passes exactly the maximal run of characters
/// before it whose boundary-ness is `want`.
proof fn lemma_skip_back(s: Seq<char>, i: int, want: bool)
    requires 0 <= i <= s.len(),
    ensures ({
        let r = skip_back(s, i, want);
        &&& 0 <= r <= i
        &&& forall|k: int| r <= k < i ==> is_word_boundary(#[trigger] s[k]) == want
        &&& r > 0 ==> is_word_boundary(s[r - 1]) != want
    }),
    decreases i,
{
    if i > 0 && is_word_boundary(s[i - 1]) == want {
        lemma_skip_back(s, i - 1, want);
    }
}

/// Law: at a caret, "delete word backward" removes the maximal run of
/// separators right before the caret and then the maximal run of word
/// characters before them: the text becomes what lies before that word
/// followed by what lies after the caret. When both runs are empty (the
/// caret at the start of the text) it changes nothing. The returned pair is
/// the start of the separators and the start of the word, as character
/// indices.
pub proof fn law_delete_word_backward_removes_separators_then_word(st: StateView, cursor: Position) -> (r: (int, int))
    requires
        addressable(st.0),
        working_selection(st, cursor)@.0 == working_selection(st, cursor)@.1,
    ensures ({
        let s = st.0;
        let i = idx(s, working_selection(st, cursor)@.1);
        let o = invocation_outcome(st, cursor, EditorInvocation::Action(EditorAction::DeleteWordBackward));
        &&& 0 <= r.1 <= r.0 <= i <= s.len()
        &&& forall|k: int| r.0 <= k < i ==> is_word_boundary(#[trigger] s[k])
        &&& r.0 > 0 ==> !is_word_boundary(s[r.0 - 1])
        &&& forall|k: int| r.1 <= k < r.0 ==> !is_word_boundary(#[trigger] s[k])
        &&& r.1 > 0 ==> is_word_boundary(s[r.1 - 1])
        &&& r.1 == i ==> o == noop(st)
        &&& r.1 < i ==> o.0 == s.subrange(0, r.1) + s.subrange(i, s.len() as int)
    }),
{
    let s = st.0;
    let sel = working_selection(st, cursor);
    let p = sel@.1;
    let i = idx(s, p);
    lemma_seek_bounds(s, p.row as int, p.col as int, 0, 0, 0);
    lemma_skip_back(s, i, true);
    let j1 = skip_back(s, i, true);
    lemma_skip_back(s, j1, false);
    let start = skip_back(s, j1, false);
    let o = invocation_outcome(st, cursor, EditorInvocation::Action(EditorAction::DeleteWordBackward));
    assert(o == action_outcome(st, sel, EditorAction::DeleteWordBackward));
    if start < i {
        lemma_delete_indices_text(st, sel, start, i);
    }
    (j1, start)
}

} // verus!
