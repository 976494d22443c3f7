//! Properties of transactions and editor commands that hold for every input.

use vstd::prelude::*;

use crate::command::invocation::{EditorAction, EditorInvocation};
use crate::position::Position;
use crate::selection::{sel_end, sel_start, Selection};
use crate::text::{addressable, clamp_position_spec, lemma_position_offset_roundtrip, range_error};

use super::invocation::{
    action_outcome, caret, invocation_outcome, left_of, outdent_rows, removable_prefix, right_of, row_end, row_start,
    row_start_offset, row_text, select_outcome, touched_rows, vertical, with_selection, working_selection, Outcome,
    StateView,
};
use super::state::DocVersion;
use super::transaction::{
    apply_changes, clamp_view, transaction_bumps, insert_sorted, lemma_validate_none, lemma_validated_disjoint, sort_changes, transaction_outcome,
    validate_from, ApplyError, ChangeView,
};

verus! {

/// Inserting into the sorted prefix adds exactly that change.
proof fn lemma_insert_sorted_multiset(s: Seq<ChangeView>, c: ChangeView)
    ensures
        insert_sorted(s, c).to_multiset() =~= s.to_multiset().insert(c),
        insert_sorted(s, c).len() == s.len() + 1,
    decreases s.len(),
{
    broadcast use vstd::seq_lib::group_to_multiset_ensures;
    if s.len() == 0 {
        assert(seq![c] =~= Seq::<ChangeView>::empty().push(c));
    } else if !crate::editing::transaction::key_le(s.last(), c) {
        lemma_insert_sorted_multiset(s.drop_last(), c);
        assert(s =~= s.drop_last().push(s.last()));
    }
}

/// Sorting keeps the changes, only reordering them.
proof fn lemma_sort_multiset(s: Seq<ChangeView>)
    ensures
        sort_changes(s).to_multiset() =~= s.to_multiset(),
        sort_changes(s).len() == s.len(),
    decreases s.len(),
{
    broadcast use vstd::seq_lib::group_to_multiset_ensures;
    if s.len() > 0 {
        lemma_sort_multiset(s.drop_last());
        lemma_insert_sorted_multiset(sort_changes(s.drop_last()), s.last());
        assert(s =~= s.drop_last().push(s.last()));
    }
}

/// Law: a transaction guarded by a stale version is rejected, whatever it
/// asks for, and the error reports the current version.
pub proof fn law_stale_version_rejected(
    text: Seq<char>,
    sel: Selection,
    version: u64,
    changes: Seq<ChangeView>,
    selection: Option<Selection>,
    expected: DocVersion,
)
    requires expected@ != version,
    ensures
        transaction_outcome(text, sel, version, changes, selection, Some(expected))
            == Err::<(Seq<char>, (Position, Position), u64, Seq<ChangeView>, bool, bool), ApplyError>(
                ApplyError::VersionMismatch { current_version: DocVersion::spec_of(version) }),
{
}

/// Law: the version moves up by exactly one when the text or the selection
/// changed and stays otherwise; the text counts as changed exactly when it
/// differs from the text before, the selection when it differs from the one
/// before; without changes the text does not change.
pub proof fn law_version_policy(
    text: Seq<char>,
    sel: Selection,
    version: u64,
    changes: Seq<ChangeView>,
    selection: Option<Selection>,
    expected: Option<DocVersion>,
)
    requires transaction_bumps(text, sel, version, changes, selection, expected) ==> version < u64::MAX,
    ensures
        transaction_outcome(text, sel, version, changes, selection, expected) matches Ok(t) ==> {
            &&& t.4 == (t.0 != text)
            &&& changes.len() == 0 ==> !t.4
            &&& t.5 == (t.1 != sel@)
            &&& t.2 == (if t.4 || t.5 { version + 1 } else { version as int })
        },
{
    lemma_sort_multiset(changes);
    if changes.len() == 0 {
        let cs = sort_changes(changes);
        assert(cs =~= Seq::<ChangeView>::empty());
        assert(apply_changes(text, cs) =~= text);
    }
}

/// Law: the changes a transaction applies are exactly the requested ones,
/// reordered by position; each range is ordered and none overlaps a later one.
pub proof fn law_applied_changes_sorted_disjoint(
    text: Seq<char>,
    sel: Selection,
    version: u64,
    changes: Seq<ChangeView>,
    selection: Option<Selection>,
    expected: Option<DocVersion>,
)
    ensures
        transaction_outcome(text, sel, version, changes, selection, expected) matches Ok(t) ==> {
            &&& t.3.to_multiset() == changes.to_multiset()
            &&& forall|i: int| 0 <= i < t.3.len() ==> (#[trigger] t.3[i]).0 <= t.3[i].1
            &&& forall|i: int, j: int| 0 <= i < j < t.3.len() ==> (#[trigger] t.3[i]).1 <= (#[trigger] t.3[j]).0
        },
{
    lemma_sort_multiset(changes);
    let cs = sort_changes(changes);
    if validate_from(text, cs, 0) is None {
        assert forall|i: int| 0 <= i < cs.len() implies (#[trigger] cs[i]).0 <= cs[i].1 by {
            lemma_validate_none(text, cs, 0, i);
        }
        assert forall|i: int, j: int| 0 <= i < j < cs.len() implies (#[trigger] cs[i]).1 <= (#[trigger] cs[j]).0 by {
            lemma_validated_disjoint(text, cs, i, j);
        }
    }
}

/// Law: after a transaction the selection lies in the new text: clamping it
/// again changes nothing.
pub proof fn law_selection_within_text(
    text: Seq<char>,
    sel: Selection,
    version: u64,
    changes: Seq<ChangeView>,
    selection: Option<Selection>,
    expected: Option<DocVersion>,
)
    ensures
        transaction_outcome(text, sel, version, changes, selection, expected) matches Ok(t)
            ==> clamp_view(t.0, t.1) == t.1,
{
    match transaction_outcome(text, sel, version, changes, selection, expected) {
        Ok(t) => {
            let target = match selection {
                Some(s) => s@,
                None => super::transaction::mapped_selection(text, t.0, sel, sort_changes(changes)),
            };
            lemma_position_offset_roundtrip(t.0, target.0, 0);
            lemma_position_offset_roundtrip(t.0, target.1, 0);
        },
        Err(_) => {},
    }
}

/// Law: an empty transaction without an explicit selection, on a state whose
/// selection already lies in its text, changes nothing: same text, same
/// selection, same version, nothing reported as changed.
pub proof fn law_empty_transaction_is_noop(
    text: Seq<char>,
    sel: Selection,
    version: u64,
    expected: Option<DocVersion>,
)
    requires
        addressable(text),
        clamp_view(text, sel@) == sel@,
        expected matches Some(e) ==> e@ == version,
    ensures
        transaction_outcome(text, sel, version, Seq::empty(), None, expected)
            == Ok::<(Seq<char>, (Position, Position), u64, Seq<ChangeView>, bool, bool), ApplyError>(
                (text, sel@, version, Seq::<ChangeView>::empty(), false, false)),
{
    let cs = sort_changes(Seq::<ChangeView>::empty());
    assert(cs =~= Seq::<ChangeView>::empty());
    assert(super::transaction::apply_changes(text, cs) =~= text);
    lemma_position_offset_roundtrip(text, sel@.0, 0);
    lemma_position_offset_roundtrip(text, sel@.1, 0);
}

/// Outdenting row by row keeps the working selection installed in the state
/// once a row has changed.
proof fn lemma_outdent_rows_selection(st: StateView, cur: Selection, row: int, last: int, changed: bool)
    requires changed ==> st.1 == cur,
    ensures ({
        let r = outdent_rows(st, cur, row, last, changed);
        r.2 ==> r.0.1 == r.1
    }),
    decreases last + 1 - row,
{
    if row <= last {
        let s = st.0;
        let remove = removable_prefix(row_text(s, row));
        if remove == 0 {
            lemma_outdent_rows_selection(st, cur, row + 1, last, changed);
        } else {
            let start = row_start_offset(s, row);
            let o = with_selection(st, cur, seq![(start, start + remove, Seq::<char>::empty())], None);
            let osel = o.1;
            let next = Selection::spec_new(osel.0, osel.1);
            lemma_outdent_rows_selection((o.0, next, o.2), next, row + 1, last, true);
        }
    }
}

/// A transaction run by a command reports the active end of the selection
/// it leaves in the state.
proof fn lemma_with_selection_cursor(st: StateView, sel: Selection, changes: Seq<ChangeView>, explicit: Option<Selection>)
    ensures ({
        let o = with_selection(st, sel, changes, explicit);
        o.3 == o.1.1
    }),
{
}

/// Law: the cursor an editor command reports is always the active end of
/// the selection in the state it returns.
pub proof fn law_cursor_follows_selection(st: StateView, cursor: Position, invocation: EditorInvocation)
    ensures ({
        let o = invocation_outcome(st, cursor, invocation);
        o.3 == o.1.1
    }),
{
    assert forall|a: StateView, b: Selection, c: Seq<ChangeView>, d: Option<Selection>|
        #![trigger with_selection(a, b, c, d)]
        ({ let o = with_selection(a, b, c, d); o.3 == o.1.1 }) by {
        lemma_with_selection_cursor(a, b, c, d);
    }
    let sel = working_selection(st, cursor);
    if invocation matches EditorInvocation::Action(EditorAction::Outdent) {
        let rows = touched_rows(sel);
        lemma_outdent_rows_selection(st, sel, rows.0, rows.1, false);
    }
}

/// Installing a selection leaves the text as it is and clamps the new
/// selection onto it.
pub(crate) proof fn lemma_select_outcome(st: StateView, sel: Selection, next: Selection)
    requires addressable(st.0),
    ensures
        select_outcome(st, sel, next).0 == st.0,
        (select_outcome(st, sel, next).1) == clamp_view(st.0, next@),
{
    broadcast use DocVersion::lemma_spec_of;
    let empty = Seq::<ChangeView>::empty();
    assert(sort_changes(empty) == empty);
    assert(validate_from(st.0, empty, 0) is None);
    assert(apply_changes(st.0, empty) =~= st.0);
}

/// The actions that move the caret, collapsing any selection.
pub open spec fn is_plain_move(a: EditorAction) -> bool {
    ||| a is MoveLeft
    ||| a is MoveRight
    ||| a is MoveUp
    ||| a is MoveDown
    ||| a is MoveToStart
    ||| a is MoveToEnd
    ||| a is MovePageUp
    ||| a is MovePageDown
}

/// The actions that move the active end of the selection, keeping its anchor.
pub open spec fn is_extending_move(a: EditorAction) -> bool {
    ||| a is SelectLeft
    ||| a is SelectRight
    ||| a is SelectUp
    ||| a is SelectDown
    ||| a is SelectToStart
    ||| a is SelectToEnd
    ||| a is SelectPageUp
    ||| a is SelectPageDown
}

/// Law: moving the caret or extending the selection never changes the text;
/// a plain move leaves a caret, and an extending move keeps the anchor of
/// the selection it works on.
pub proof fn law_moves_keep_text(st: StateView, cursor: Position, a: EditorAction)
    requires
        addressable(st.0),
        is_plain_move(a) || is_extending_move(a),
    ensures
        invocation_outcome(st, cursor, EditorInvocation::Action(a)).0 == st.0,
        is_plain_move(a) ==> invocation_outcome(st, cursor, EditorInvocation::Action(a)).1.0
            == invocation_outcome(st, cursor, EditorInvocation::Action(a)).1.1,
        is_extending_move(a) ==> invocation_outcome(st, cursor, EditorInvocation::Action(a)).1.0
            == working_selection(st, cursor)@.0,
{
    let sel = working_selection(st, cursor);
    let o = invocation_outcome(st, cursor, EditorInvocation::Action(a));
    assert(o == action_outcome(st, sel, a));
    broadcast use Selection::lemma_spec_new;
    let anchor = sel@.0;
    lemma_position_offset_roundtrip(st.0, st.1@.0, 0);
    lemma_position_offset_roundtrip(st.0, cursor, 0);
    lemma_position_offset_roundtrip(st.0, st.1@.1, 0);
    assert(clamp_position_spec(st.0, anchor) == anchor);
    let s = st.0;
    let p = sel@.1;
    match a {
        EditorAction::MoveLeft => {
            lemma_select_outcome(st, sel, Selection::spec_new(sel_start(sel), sel_start(sel)));
            lemma_select_outcome(st, sel, Selection::spec_new(left_of(s, p), left_of(s, p)));
        },
        EditorAction::MoveRight => {
            lemma_select_outcome(st, sel, Selection::spec_new(sel_end(sel), sel_end(sel)));
            lemma_select_outcome(st, sel, Selection::spec_new(right_of(s, p), right_of(s, p)));
        },
        EditorAction::MoveUp => lemma_select_outcome(st, sel, caret(vertical(s, p, -1))),
        EditorAction::MoveDown => lemma_select_outcome(st, sel, caret(vertical(s, p, 1))),
        EditorAction::MoveToStart => lemma_select_outcome(st, sel, caret(row_start(p))),
        EditorAction::MoveToEnd => lemma_select_outcome(st, sel, caret(row_end(s, p))),
        EditorAction::MovePageUp => lemma_select_outcome(st, sel, caret(vertical(s, p, -20))),
        EditorAction::MovePageDown => lemma_select_outcome(st, sel, caret(vertical(s, p, 20))),
        EditorAction::SelectLeft => lemma_select_outcome(st, sel, Selection::spec_new(anchor, left_of(s, p))),
        EditorAction::SelectRight => lemma_select_outcome(st, sel, Selection::spec_new(anchor, right_of(s, p))),
        EditorAction::SelectUp => lemma_select_outcome(st, sel, Selection::spec_new(anchor, vertical(s, p, -1))),
        EditorAction::SelectDown => lemma_select_outcome(st, sel, Selection::spec_new(anchor, vertical(s, p, 1))),
        EditorAction::SelectToStart => lemma_select_outcome(st, sel, Selection::spec_new(anchor, row_start(p))),
        EditorAction::SelectToEnd => lemma_select_outcome(st, sel, Selection::spec_new(anchor, row_end(s, p))),
        EditorAction::SelectPageUp => lemma_select_outcome(st, sel, Selection::spec_new(anchor, vertical(s, p, -20))),
        EditorAction::SelectPageDown => lemma_select_outcome(st, sel, Selection::spec_new(anchor, vertical(s, p, 20))),
        _ => {},
    }
}

} // verus!
