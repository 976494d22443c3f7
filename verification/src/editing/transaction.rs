//! Atomic editing transactions: version check, change validation, text
//! replacement, selection mapping and clamping, version update.

use vstd::prelude::*;

use crate::position::Position;
use crate::selection::Selection;
use crate::text::{
    addressable, byte_len, byte_offset, char_floor, chars_of, clamp_position_spec,
    clamp_selection_to_text, floor_index, lemma_byte_len_concat, lemma_byte_len_subrange,
    lemma_byte_offset_full, lemma_byte_offset_mono, lemma_byte_offset_step, lemma_char_floor,
    lemma_utf8_width, offset_of_position, position_at_offset, range_error, TextBuffer,
    TextBufferError,
};

use super::state::{DocVersion, EditorState, Offset};

verus! {

/// Replace the bytes `[from, to)` of the document (as it was when the
/// transaction started) by `insert`.
#[derive(Debug, PartialEq, Eq)]
pub struct TextChange {
    /// Start byte offset (included).
    pub from: Offset,
    /// End byte offset (excluded).
    pub to: Offset,
    /// The replacement text.
    pub insert: String,
}

impl Clone for TextChange {
    fn clone(&self) -> (r: Self)
        ensures r == *self,
    {
        TextChange { from: self.from, to: self.to, insert: self.insert.clone() }
    }
}

impl TextChange {
    /// A change replacing `[from, to)` by `insert`.
    pub fn new(from: Offset, to: Offset, insert: &str) -> (c: Self)
        ensures c.from == from, c.to == to, c.insert@ == insert@,
    {
        TextChange { from, to, insert: insert.to_owned() }
    }
}

/// Where a transaction comes from.
#[derive(Debug, Clone, Copy, PartialEq, Eq, Structural)]
pub enum TransactionSource {
    /// Local keyboard input or shortcut.
    Keyboard,
    /// Mouse or pointer interaction.
    Mouse,
    /// The runtime synchronisation channel.
    Runtime,
    /// Undo / redo replay.
    History,
}

/// Descriptive metadata of a transaction.
#[derive(Debug, Clone, PartialEq, Eq)]
pub struct TransactionMeta {
    /// Where the transaction comes from.
    pub source: TransactionSource,
    /// Whether the transaction should be recorded in the undo history.
    pub should_add_to_history: bool,
    /// Optional human-readable label.
    pub label: Option<String>,
}

impl TransactionMeta {
    /// Metadata for the given source, recorded in history, without label.
    pub fn from_source(source: TransactionSource) -> (m: Self)
        ensures m.source == source, m.should_add_to_history, m.label is None,
    {
        TransactionMeta { source, should_add_to_history: true, label: None }
    }
}

/// A transaction request.
#[derive(Debug, Clone, PartialEq, Eq)]
pub struct TransactionSpec {
    /// Byte-range edits, all in the coordinates of the starting document.
    pub changes: Vec<TextChange>,
    /// The selection to install; `None` maps the old selection through the edits.
    pub selection: Option<Selection>,
    /// Metadata.
    pub meta: TransactionMeta,
    /// The version the request was built against; a mismatch rejects it.
    pub expected_version: Option<DocVersion>,
}

impl TransactionSpec {
    /// A request with the given changes and source, no explicit selection and
    /// no version check.
    pub fn with_changes(changes: Vec<TextChange>, source: TransactionSource) -> (t: Self)
        ensures
            t.changes@ == changes@,
            t.selection is None,
            t.meta.source == source,
            t.meta.should_add_to_history,
            t.meta.label is None,
            t.expected_version is None,
    {
        TransactionSpec {
            changes,
            selection: None,
            meta: TransactionMeta::from_source(source),
            expected_version: None,
        }
    }
}

/// The outcome of a successful transaction.
#[derive(Debug, Clone, PartialEq, Eq)]
pub struct TransactionResult {
    /// The state after the transaction.
    pub state: EditorState,
    /// The changes actually applied, sorted and validated.
    pub applied_changes: Vec<TextChange>,
    /// Whether the text changed.
    pub is_document_changed: bool,
    /// Whether the selection differs from the previous one.
    pub is_selection_changed: bool,
}

/// Why a transaction was rejected.
#[derive(Debug, Clone, Copy, PartialEq, Eq, Structural)]
pub enum ApplyError {
    /// The request's expected version is stale.
    VersionMismatch { current_version: DocVersion },
    /// After sorting, two change ranges overlap.
    OverlappingChanges { previous_to: Offset, current_from: Offset },
    /// A change range is invalid (inverted, out of bounds or inside a character).
    InvalidChangeRange { index: usize, error: TextBufferError },
    /// The resulting text would be too large to address.
    ResultTooLarge,
}

// ---------------------------------------------------------------------------
// Specification
// ---------------------------------------------------------------------------

/// A change as plain values: `(from, to, inserted text)`.
pub type ChangeView = (int, int, Seq<char>);

/// The plain view of a change.
pub open spec fn change_view(c: TextChange) -> ChangeView {
    (c.from as int, c.to as int, c.insert@)
}

/// The plain views of changes.
pub open spec fn changes_view(cs: Seq<TextChange>) -> Seq<ChangeView> {
    cs.map_values(|c: TextChange| change_view(c))
}

/// Lexicographic order on `(from, to)`.
pub open spec fn key_le(a: ChangeView, b: ChangeView) -> bool {
    a.0 < b.0 || (a.0 == b.0 && a.1 <= b.1)
}

/// Inserts `c` into `s` right after the last element whose key is not
/// greater than `c`'s (scanning from the back).
pub open spec fn insert_sorted(s: Seq<ChangeView>, c: ChangeView) -> Seq<ChangeView>
    decreases s.len(),
{
    if s.len() == 0 {
        seq![c]
    } else if key_le(s.last(), c) {
        s.push(c)
    } else {
        insert_sorted(s.drop_last(), c).push(s.last())
    }
}

/// Stable sort of changes by `(from, to)` (insertion sort).
pub open spec fn sort_changes(s: Seq<ChangeView>) -> Seq<ChangeView>
    decreases s.len(),
{
    if s.len() == 0 {
        s
    } else {
        insert_sorted(sort_changes(s.drop_last()), s.last())
    }
}

/// The first validation error of sorted changes, scanning from index `i`.
pub open spec fn validate_from(s: Seq<char>, cs: Seq<ChangeView>, i: int) -> Option<ApplyError>
    decreases cs.len() - i,
{
    if i < 0 || i >= cs.len() {
        None
    } else if i > 0 && cs[i].0 < cs[i - 1].1 {
        Some(ApplyError::OverlappingChanges { previous_to: cs[i - 1].1 as usize, current_from: cs[i].0 as usize })
    } else if range_error(s, cs[i].0, cs[i].1) is Some {
        Some(ApplyError::InvalidChangeRange {
            index: i as usize,
            error: range_error(s, cs[i].0, cs[i].1)->0,
        })
    } else {
        validate_from(s, cs, i + 1)
    }
}

/// The character index of a change's start.
pub open spec fn from_index(s: Seq<char>, c: ChangeView) -> int {
    char_floor(s, c.0) as int
}

/// The character index of a change's end.
pub open spec fn to_index(s: Seq<char>, c: ChangeView) -> int {
    char_floor(s, c.1) as int
}

/// Where copying of the old text resumes after the changes `cs`.
pub open spec fn resume_index(s: Seq<char>, cs: Seq<ChangeView>) -> int {
    if cs.len() == 0 { 0 } else { to_index(s, cs.last()) }
}

/// The new text up to the end of the last change's insertion.
pub open spec fn spliced_prefix(s: Seq<char>, cs: Seq<ChangeView>) -> Seq<char>
    decreases cs.len(),
{
    if cs.len() == 0 {
        Seq::empty()
    } else {
        spliced_prefix(s, cs.drop_last())
            + s.subrange(resume_index(s, cs.drop_last()), from_index(s, cs.last()))
            + cs.last().2
    }
}

/// The text after applying sorted, non-overlapping changes.
pub open spec fn apply_changes(s: Seq<char>, cs: Seq<ChangeView>) -> Seq<char> {
    spliced_prefix(s, cs) + s.skip(resume_index(s, cs))
}

/// Maps an offset of the old text through the sorted changes `cs[i..]`,
/// each compared in the old text's coordinates; `delta` is what the changes
/// before `i` that end at or before the offset added minus what they removed.
/// An offset before a change is not moved by it, one at or after its end
/// moves by its size difference, and one inside a replaced range lands at
/// the end of the replacement in the new text.
pub open spec fn map_from(offset: int, cs: Seq<ChangeView>, i: int, delta: int) -> int
    decreases cs.len() - i,
{
    if i < 0 || i >= cs.len() {
        offset + delta
    } else if offset < cs[i].0 {
        map_from(offset, cs, i + 1, delta)
    } else if offset >= cs[i].1 {
        map_from(offset, cs, i + 1, delta + byte_len(cs[i].2) - (cs[i].1 - cs[i].0))
    } else {
        cs[i].0 + delta + byte_len(cs[i].2)
    }
}

/// Maps an offset of the old text to the new text after the changes.
pub open spec fn map_offset_spec(offset: int, cs: Seq<ChangeView>) -> int {
    map_from(offset, cs, 0, 0)
}

/// The total number of inserted bytes.
pub open spec fn inserted_bytes(cs: Seq<ChangeView>) -> nat
    decreases cs.len(),
{
    if cs.len() == 0 { 0 } else { inserted_bytes(cs.drop_last()) + byte_len(cs.last().2) }
}

/// The selection the old one becomes after the changes (before clamping).
pub open spec fn mapped_selection(old: Seq<char>, new: Seq<char>, sel: Selection, cs: Seq<ChangeView>) -> (Position, Position) {
    (
        position_at_offset(new, map_offset_spec(offset_of_position(old, sel@.0) as int, cs)),
        position_at_offset(new, map_offset_spec(offset_of_position(old, sel@.1) as int, cs)),
    )
}

/// A selection (as its view) clamped onto a text.
pub open spec fn clamp_view(s: Seq<char>, v: (Position, Position)) -> (Position, Position) {
    (clamp_position_spec(s, v.0), clamp_position_spec(s, v.1))
}

/// The outcome of a transaction on the state `(text, sel, version)`:
/// `Ok((new_text, new_selection_view, new_version, applied_changes,
/// document_changed, selection_changed))` or the error.
pub open spec fn transaction_outcome(
    text: Seq<char>,
    sel: Selection,
    version: u64,
    changes: Seq<ChangeView>,
    selection: Option<Selection>,
    expected: Option<DocVersion>,
) -> Result<(Seq<char>, (Position, Position), u64, Seq<ChangeView>, bool, bool), ApplyError> {
    if expected matches Some(e) && e@ != version {
        Err(ApplyError::VersionMismatch { current_version: DocVersion::spec_of(version) })
    } else {
        let cs = sort_changes(changes);
        if validate_from(text, cs, 0) is Some {
            Err(validate_from(text, cs, 0)->0)
        } else {
            let new_text = apply_changes(text, cs);
            if !addressable(new_text) {
                Err(ApplyError::ResultTooLarge)
            } else {
                let target = match selection {
                    Some(s) => s@,
                    None => mapped_selection(text, new_text, sel, cs),
                };
                let new_sel = clamp_view(new_text, target);
                let doc_changed = new_text != text;
                let sel_changed = new_sel != sel@;
                let new_version = if doc_changed || sel_changed { version + 1 } else { version as int };
                Ok((new_text, new_sel, new_version as u64, cs, doc_changed, sel_changed))
            }
        }
    }
}


// ---------------------------------------------------------------------------
// Lemmas
// ---------------------------------------------------------------------------

/// Insertion at the scan position `j` is `insert_sorted`.
proof fn lemma_insert_sorted_at(s: Seq<ChangeView>, c: ChangeView, j: int)
    requires
        0 <= j <= s.len(),
        j == 0 || key_le(s[j - 1], c),
        forall|k: int| j <= k < s.len() ==> !key_le(#[trigger] s[k], c),
    ensures insert_sorted(s, c) == s.insert(j, c),
    decreases s.len(),
{
    if s.len() == 0 {
        assert(s.insert(j, c) =~= seq![c]);
    } else if key_le(s.last(), c) {
        assert(j == s.len());
        assert(s.insert(j, c) =~= s.push(c));
    } else {
        assert(j < s.len());
        lemma_insert_sorted_at(s.drop_last(), c, j);
        assert(s.drop_last().insert(j, c).push(s.last()) =~= s.insert(j, c));
    }
}

/// Later validation positions are valid once the scan from `j` found nothing.
pub proof fn lemma_validate_none(s: Seq<char>, cs: Seq<ChangeView>, j: int, i: int)
    requires
        0 <= j <= i < cs.len(),
        validate_from(s, cs, j) is None,
    ensures
        i > 0 && i > j ==> cs[i].0 >= cs[i - 1].1,
        i == j && i > 0 ==> cs[i].0 >= cs[i - 1].1,
        range_error(s, cs[i].0, cs[i].1) is None,
    decreases i - j,
{
    if j < i {
        lemma_validate_none(s, cs, j + 1, i);
    }
}

/// The floor index is monotone in the offset.
proof fn lemma_char_floor_mono(s: Seq<char>, a: int, b: int)
    requires 0 <= a <= b,
    ensures char_floor(s, a) <= char_floor(s, b),
{
    lemma_char_floor(s, a);
    lemma_char_floor(s, b);
    let fa = char_floor(s, a) as int;
    let fb = char_floor(s, b) as int;
    if fb < fa {
        lemma_byte_offset_mono(s, fb + 1, fa);
    }
}

/// Offsets at or past the end floor to the end.
pub proof fn lemma_char_floor_past_end(s: Seq<char>, off: int)
    requires off >= byte_len(s),
    ensures char_floor(s, off) == s.len(),
{
    lemma_char_floor(s, off);
    if char_floor(s, off) < s.len() {
        lemma_byte_offset_mono(s, char_floor(s, off) as int + 1, s.len() as int);
        lemma_byte_offset_full(s);
    }
}

/// Every change range is ordered (`from <= to`) and ends at or before the
/// start of every later one.
pub open spec fn ordered_ranges(cs: Seq<ChangeView>) -> bool {
    &&& forall|i: int| 0 <= i < cs.len() ==> 0 <= (#[trigger] cs[i]).0 <= cs[i].1
    &&& forall|i: int, j: int| 0 <= i < j < cs.len() ==> (#[trigger] cs[i]).1 <= (#[trigger] cs[j]).0
}

/// Validated changes are pairwise disjoint and in order.
pub proof fn lemma_validated_disjoint(text: Seq<char>, cs: Seq<ChangeView>, i: int, j: int)
    requires
        validate_from(text, cs, 0) is None,
        0 <= i < j < cs.len(),
    ensures cs[i].1 <= cs[j].0,
    decreases j - i,
{
    lemma_validate_none(text, cs, 0, j);
    lemma_validate_none(text, cs, 0, j - 1);
    assert(range_error(text, cs[j - 1].0, cs[j - 1].1) is None);
    if i < j - 1 {
        lemma_validated_disjoint(text, cs, i, j - 1);
    }
}

/// Validated changes have ordered ranges.
proof fn lemma_validated_ordered(s: Seq<char>, cs: Seq<ChangeView>)
    requires validate_from(s, cs, 0) is None,
    ensures ordered_ranges(cs),
{
    assert forall|i: int| 0 <= i < cs.len() implies 0 <= (#[trigger] cs[i]).0 <= cs[i].1 by {
        lemma_validate_none(s, cs, 0, i);
    }
    assert forall|i: int, j: int| 0 <= i < j < cs.len() implies (#[trigger] cs[i]).1 <= (#[trigger] cs[j]).0 by {
        lemma_validated_disjoint(s, cs, i, j);
    }
}

/// Mapping from `i` with a `delta` that the earlier changes (all ending at
/// or before `last`, which is at or before the offset and the next start)
/// keep above `-last` gives an offset of at least 0 and at most the offset
/// plus all inserted bytes.
proof fn lemma_map_from_bounds(o: int, cs: Seq<ChangeView>, i: int, delta: int, last: int)
    requires
        ordered_ranges(cs),
        0 <= i <= cs.len(),
        0 <= last <= o,
        i < cs.len() ==> last <= cs[i].0,
        -last <= delta <= inserted_bytes(cs.take(i)),
    ensures 0 <= map_from(o, cs, i, delta) <= o + inserted_bytes(cs),
    decreases cs.len() - i,
{
    if i == cs.len() {
        assert(cs.take(i) =~= cs);
    } else {
        lemma_inserted_take(cs, i);
        let c = cs[i];
        assert(0 <= c.0 <= c.1);
        if i + 1 < cs.len() {
            assert(c.1 <= cs[i + 1].0);
        }
        if o < c.0 {
            lemma_map_from_bounds(o, cs, i + 1, delta, last);
        } else if o >= c.1 {
            lemma_map_from_bounds(o, cs, i + 1, delta + byte_len(c.2) - (c.1 - c.0), c.1);
        }
    }
}

/// Mapped offsets never drop below 0 nor grow by more than the inserted bytes.
proof fn lemma_map_bounds(o: int, cs: Seq<ChangeView>)
    requires o >= 0, ordered_ranges(cs),
    ensures 0 <= map_offset_spec(o, cs) <= o + inserted_bytes(cs),
{
    assert(cs.take(0) =~= Seq::<ChangeView>::empty());
    if cs.len() > 0 {
        assert(0 <= cs[0].0);
    }
    lemma_map_from_bounds(o, cs, 0, 0, 0);
}

/// Inserted bytes of a prefix of the changes.
proof fn lemma_inserted_take(cs: Seq<ChangeView>, k: int)
    requires 0 <= k < cs.len(),
    ensures
        inserted_bytes(cs.take(k + 1)) == inserted_bytes(cs.take(k)) + byte_len(cs[k].2),
        inserted_bytes(cs.take(k + 1)) <= inserted_bytes(cs),
    decreases cs.len() - k,
{
    assert(cs.take(k + 1).drop_last() =~= cs.take(k));
    if k + 1 < cs.len() {
        lemma_inserted_take(cs, k + 1);
    } else {
        assert(cs.take(k + 1) =~= cs);
    }
}

proof fn lemma_empty_byte_len()
    ensures byte_len(Seq::<char>::empty()) == 0,
{
    assert(vstd::utf8::encode_utf8(Seq::<char>::empty()) =~= Seq::<u8>::empty());
}

/// The spliced prefix holds all inserted bytes.
proof fn lemma_inserted_le_prefix(s: Seq<char>, cs: Seq<ChangeView>)
    ensures inserted_bytes(cs) <= byte_len(spliced_prefix(s, cs)),
    decreases cs.len(),
{
    if cs.len() == 0 {
        lemma_empty_byte_len();
    } else {
        lemma_inserted_le_prefix(s, cs.drop_last());
        let a = spliced_prefix(s, cs.drop_last());
        let b = s.subrange(resume_index(s, cs.drop_last()), from_index(s, cs.last()));
        lemma_byte_len_concat(a, b);
        lemma_byte_len_concat(a + b, cs.last().2);
    }
}

/// Views of a vector of changes, one more element.
proof fn lemma_changes_view_take(cs: Seq<TextChange>, k: int)
    requires 0 <= k < cs.len(),
    ensures
        changes_view(cs.take(k + 1)).drop_last() == changes_view(cs.take(k)),
        changes_view(cs.take(k + 1)).last() == change_view(cs[k]),
        changes_view(cs.take(k + 1)).len() == k + 1,
{
    assert(changes_view(cs.take(k + 1)).drop_last() =~= changes_view(cs.take(k)));
}

// ---------------------------------------------------------------------------
// Executable steps
// ---------------------------------------------------------------------------

fn key_le_exec(a: &TextChange, b: &TextChange) -> (r: bool)
    ensures r == key_le(change_view(*a), change_view(*b)),
{
    a.from < b.from || (a.from == b.from && a.to <= b.to)
}

/// Stable sort of the changes by `(from, to)`.
pub fn sort_changes_exec(changes: &Vec<TextChange>) -> (r: Vec<TextChange>)
    ensures changes_view(r@) == sort_changes(changes_view(changes@)),
{
    let mut sorted: Vec<TextChange> = Vec::new();
    let mut i: usize = 0;
    proof { assert(changes_view(sorted@) =~= sort_changes(changes_view(changes@.take(0)))); }
    while i < changes.len()
        invariant
            i <= changes@.len(),
            changes_view(sorted@) == sort_changes(changes_view(changes@.take(i as int))),
        decreases changes@.len() - i,
    {
        let c = changes[i].clone();
        let mut j: usize = sorted.len();
        while j > 0 && !key_le_exec(&sorted[j - 1], &c)
            invariant
                j <= sorted@.len(),
                forall|k: int| j <= k < sorted@.len() ==> !key_le(#[trigger] changes_view(sorted@)[k], change_view(c)),
            decreases j,
        {
            j = j - 1;
        }
        proof {
            lemma_insert_sorted_at(changes_view(sorted@), change_view(c), j as int);
            lemma_changes_view_take(changes@, i as int);
            assert(changes_view(sorted@.insert(j as int, c)) =~= changes_view(sorted@).insert(j as int, change_view(c)));
        }
        sorted.insert(j, c);
        i = i + 1;
    }
    proof { assert(changes@.take(changes@.len() as int) =~= changes@); }
    sorted
}

/// Validates sorted changes against the buffer.
pub fn validate_changes(buffer: &TextBuffer, changes: &Vec<TextChange>) -> (r: Result<(), ApplyError>)
    ensures
        validate_from(buffer@, changes_view(changes@), 0) is None ==> r is Ok,
        validate_from(buffer@, changes_view(changes@), 0) matches Some(e) ==> r == Err::<(), ApplyError>(e),
{
    let ghost cs = changes_view(changes@);
    let mut i: usize = 0;
    while i < changes.len()
        invariant
            cs == changes_view(changes@),
            i <= changes@.len(),
            validate_from(buffer@, cs, 0) == validate_from(buffer@, cs, i as int),
        decreases changes@.len() - i,
    {
        if i > 0 && changes[i].from < changes[i - 1].to {
            return Err(ApplyError::OverlappingChanges {
                previous_to: changes[i - 1].to,
                current_from: changes[i].from,
            });
        }
        match buffer.validate_byte_range(changes[i].from, changes[i].to) {
            Err(error) => {
                return Err(ApplyError::InvalidChangeRange { index: i, error });
            },
            Ok(()) => {},
        }
        i = i + 1;
    }
    Ok(())
}

/// Builds the text after sorted, validated changes.
fn splice_changes(buffer: &TextBuffer, changes: &Vec<TextChange>) -> (r: Vec<char>)
    requires validate_from(buffer@, changes_view(changes@), 0) is None,
    ensures r@ == apply_changes(buffer@, changes_view(changes@)),
{
    let chars = buffer.chars();
    let ghost s = buffer@;
    let ghost cs = changes_view(changes@);
    let mut out: Vec<char> = Vec::new();
    let mut cursor: usize = 0;
    let mut k: usize = 0;
    proof { assert(cs.take(0) =~= Seq::<ChangeView>::empty()); }
    while k < changes.len()
        invariant
            s == chars@,
            cs == changes_view(changes@),
            addressable(s),
            validate_from(s, cs, 0) is None,
            k <= changes@.len(),
            out@ == spliced_prefix(s, cs.take(k as int)),
            cursor == resume_index(s, cs.take(k as int)),
            k > 0 ==> cursor == to_index(s, cs[k - 1]),
            cursor <= s.len(),
        decreases changes@.len() - k,
    {
        let c = &changes[k];
        proof {
            lemma_validate_none(s, cs, 0, k as int);
            lemma_char_floor_mono(s, c.from as int, c.to as int);
            if k > 0 {
                lemma_char_floor_mono(s, cs[k - 1].1, c.from as int);
            }
        }
        let (fi, _fb) = floor_index(chars, c.from);
        let (ti, _tb) = floor_index(chars, c.to);
        let ghost before = out@;
        let mut idx = cursor;
        while idx < fi
            invariant
                s == chars@,
                cursor <= idx <= fi <= s.len(),
                out@ == before + s.subrange(cursor as int, idx as int),
            decreases fi - idx,
        {
            out.push(chars[idx]);
            proof {
                assert(s.subrange(cursor as int, idx + 1) =~= s.subrange(cursor as int, idx as int).push(s[idx as int]));
            }
            idx = idx + 1;
        }
        let ins = chars_of(c.insert.as_str());
        let ghost mid = out@;
        let mut m: usize = 0;
        while m < ins.len()
            invariant
                m <= ins@.len(),
                out@ == mid + ins@.take(m as int),
            decreases ins@.len() - m,
        {
            out.push(ins[m]);
            proof { assert(ins@.take(m + 1) =~= ins@.take(m as int).push(ins@[m as int])); }
            m = m + 1;
        }
        proof {
            assert(ins@.take(ins@.len() as int) =~= ins@);
            let t = cs.take(k + 1);
            assert(t.drop_last() =~= cs.take(k as int));
            assert(t.last() == cs[k as int]);
        }
        cursor = ti;
        k = k + 1;
    }
    let ghost pre = out@;
    let mut idx = cursor;
    while idx < chars.len()
        invariant
            s == chars@,
            cursor <= idx <= s.len(),
            out@ == pre + s.subrange(cursor as int, idx as int),
        decreases s.len() - idx,
    {
        out.push(chars[idx]);
        proof {
            assert(s.subrange(cursor as int, idx + 1) =~= s.subrange(cursor as int, idx as int).push(s[idx as int]));
        }
        idx = idx + 1;
    }
    proof {
        assert(cs.take(cs.len() as int) =~= cs);
        assert(s.subrange(cursor as int, s.len() as int) =~= s.skip(cursor as int));
    }
    out
}

/// Whether a character vector is addressable; computed without overflow.
pub fn is_addressable(chars: &Vec<char>) -> (b: bool)
    ensures b == addressable(chars@),
{
    if chars.len() > 0xffff_ffffusize {
        return false;
    }
    let ghost s = chars@;
    let mut total: u64 = 0;
    let mut i: usize = 0;
    proof {
        assert(s.take(0) =~= Seq::<char>::empty());
        lemma_empty_byte_len();
    }
    while i < chars.len()
        invariant
            s == chars@,
            s.len() <= u32::MAX,
            i <= s.len(),
            total == byte_offset(s, i as int),
            total <= 4 * i,
        decreases s.len() - i,
    {
        proof { lemma_byte_offset_step(s, i as int); lemma_utf8_width(s[i as int]); }
        let w = crate::text::char_width(chars[i]);
        total = total + w as u64;
        i = i + 1;
    }
    proof { lemma_byte_offset_full(s); }
    total <= usize::MAX as u64
}

/// Maps a byte offset of the old text to the new text after the changes
/// (sorted and disjoint): an offset inside a replaced range lands at the end
/// of the replacement.
pub fn map_offset(offset: Offset, changes: &Vec<TextChange>) -> (r: u128)
    requires
        inserted_bytes(changes_view(changes@)) <= usize::MAX,
        ordered_ranges(changes_view(changes@)),
    ensures r == map_offset_spec(offset as int, changes_view(changes@)),
{
    let ghost cs = changes_view(changes@);
    let mut delta: i128 = 0;
    let ghost mut last: int = 0;
    let mut k: usize = 0;
    proof { assert(cs.take(0) =~= Seq::<ChangeView>::empty()); }
    while k < changes.len()
        invariant
            cs == changes_view(changes@),
            k <= changes@.len(),
            inserted_bytes(cs) <= usize::MAX,
            ordered_ranges(cs),
            map_offset_spec(offset as int, cs) == map_from(offset as int, cs, k as int, delta as int),
            0 <= last <= offset,
            k < cs.len() ==> last <= cs[k as int].0,
            -last <= delta <= inserted_bytes(cs.take(k as int)),
        decreases changes@.len() - k,
    {
        let c = &changes[k];
        proof {
            lemma_inserted_take(cs, k as int);
            assert(cs[k as int] == change_view(changes@[k as int]));
            assert(0 <= cs[k as int].0 <= cs[k as int].1);
            if k + 1 < cs.len() {
                assert(cs[k as int].1 <= cs[k + 1].0);
            }
        }
        let ins = c.insert.as_str();
        let added = ins.len();
        proof {
            assert(ins@ == c.insert@);
            assert(added == byte_len(c.insert@));
            lemma_map_from_bounds(offset as int, cs, k as int, delta as int, last);
        }
        let from = c.from as i128;
        let to = c.to as i128;
        let off = offset as i128;
        if off < from {
        } else if off >= to {
            delta = delta + added as i128 - (to - from);
            proof { last = to as int; }
        } else {
            let r = from + delta + added as i128;
            return r as u128;
        }
        k = k + 1;
    }
    proof {
        assert(cs.take(cs.len() as int) =~= cs);
        lemma_map_from_bounds(offset as int, cs, k as int, delta as int, last);
    }
    (offset as i128 + delta) as u128
}

/// The position of a (possibly huge) mapped offset in the buffer.
fn position_of_mapped(buffer: &TextBuffer, mapped: u128) -> (p: Position)
    ensures p == position_at_offset(buffer@, mapped as int),
{
    let _chars = buffer.chars();
    if mapped > usize::MAX as u128 {
        proof {
            lemma_char_floor_past_end(buffer@, mapped as int);
            lemma_char_floor_past_end(buffer@, usize::MAX as int);
        }
        buffer.position_at_or_before(usize::MAX)
    } else {
        buffer.position_at_or_before(mapped as usize)
    }
}

/// Whether a transaction succeeds and counts the version up (its text or its
/// selection changes).
pub open spec fn transaction_bumps(
    text: Seq<char>,
    sel: Selection,
    version: u64,
    changes: Seq<ChangeView>,
    selection: Option<Selection>,
    expected: Option<DocVersion>,
) -> bool {
    transaction_outcome(text, sel, version, changes, selection, expected) matches Ok(t) && (t.4 || t.5)
}

/// Whether two character sequences are equal.
fn same_chars(a: &Vec<char>, b: &Vec<char>) -> (r: bool)
    ensures r == (a@ == b@),
{
    if a.len() != b.len() {
        return false;
    }
    let mut i: usize = 0;
    while i < a.len()
        invariant
            a@.len() == b@.len(),
            i <= a@.len(),
            forall|k: int| 0 <= k < i ==> a@[k] == b@[k],
        decreases a@.len() - i,
    {
        if a[i] != b[i] {
            return false;
        }
        i = i + 1;
    }
    proof { assert(a@ =~= b@); }
    true
}

/// Whether a transaction result agrees with `transaction_outcome`.
pub open spec fn result_matches(
    r: Result<TransactionResult, ApplyError>,
    o: Result<(Seq<char>, (Position, Position), u64, Seq<ChangeView>, bool, bool), ApplyError>,
) -> bool {
    match o {
        Err(e) => r == Err::<TransactionResult, ApplyError>(e),
        Ok(t) => r is Ok && {
            let res = r->Ok_0;
            &&& res.state@.0 == t.0
            &&& res.state@.1@ == t.1
            &&& res.state@.2 == t.2
            &&& changes_view(res.applied_changes@) == t.3
            &&& res.is_document_changed == t.4
            &&& res.is_selection_changed == t.5
        },
    }
}

/// Applies a transaction atomically: 1) optional version check, 2) stable
/// sort and validation of the change ranges, 3) text replacement, 4) mapping
/// and clamping of the selection, 5) version update (incremented exactly when
/// the text or the selection changed). The document counts as changed when
/// the new text differs from the old one.
pub fn apply_transaction(state: &EditorState, spec: TransactionSpec) -> (r: Result<TransactionResult, ApplyError>)
    requires
        transaction_bumps(state@.0, state@.1, state@.2, changes_view(spec.changes@), spec.selection, spec.expected_version)
            ==> state@.2 < u64::MAX,
    ensures
        result_matches(r, transaction_outcome(state@.0, state@.1, state@.2,
            changes_view(spec.changes@), spec.selection, spec.expected_version)),
{
    broadcast use DocVersion::lemma_spec_of, DocVersion::lemma_view_injective;
    if let Some(expected) = spec.expected_version {
        if expected != state.version() {
            return Err(ApplyError::VersionMismatch { current_version: state.version() });
        }
    }
    let changes = sort_changes_exec(&spec.changes);
    let buffer = state.buffer();
    match validate_changes(buffer, &changes) {
        Err(e) => { return Err(e); },
        Ok(()) => {},
    }
    let new_chars = splice_changes(buffer, &changes);
    let new_chars_view = new_chars.clone();
    if !is_addressable(&new_chars) {
        return Err(ApplyError::ResultTooLarge);
    }
    let ghost old_text = buffer@;
    let ghost cs = changes_view(changes@);
    let next_buffer = TextBuffer::from_chars(new_chars);
    proof {
        lemma_validated_ordered(old_text, cs);
        lemma_inserted_le_prefix(old_text, cs);
        lemma_byte_len_concat(spliced_prefix(old_text, cs), old_text.skip(resume_index(old_text, cs)));
    }
    let previous_selection = state.selection();
    let previous_anchor = state.position_to_offset(previous_selection.anchor());
    let previous_active = state.position_to_offset(previous_selection.active());
    let anchor_mapped = map_offset(previous_anchor, &changes);
    let active_mapped = map_offset(previous_active, &changes);
    let mapped_selection = Selection::new(
        position_of_mapped(&next_buffer, anchor_mapped),
        position_of_mapped(&next_buffer, active_mapped),
    );
    let target = match spec.selection {
        Some(s) => s,
        None => mapped_selection,
    };
    let next_selection = clamp_selection_to_text(&next_buffer, target);
    let old_chars = buffer.chars();
    let is_document_changed = !same_chars(&new_chars_view, &old_chars);
    let is_selection_changed = next_selection != previous_selection;
    proof {
        if next_selection@ == previous_selection@ {
            crate::selection::lemma_selection_view_injective(next_selection, previous_selection);
        }
    }
    let next_version = if is_document_changed || is_selection_changed {
        state.version().next()
    } else {
        state.version()
    };
    Ok(TransactionResult {
        state: EditorState::from_parts(next_buffer, next_selection, next_version),
        applied_changes: changes,
        is_document_changed,
        is_selection_changed,
    })
}

/// The changes a successful transaction applied can be mapped over: their
/// ranges are ordered and their inserted bytes fit in a `usize`.
pub proof fn lemma_applied_changes_mappable(
    text: Seq<char>,
    sel: Selection,
    version: u64,
    changes: Seq<ChangeView>,
    selection: Option<Selection>,
    expected: Option<DocVersion>,
)
    ensures
        transaction_outcome(text, sel, version, changes, selection, expected) matches Ok(t)
            ==> ordered_ranges(t.3) && inserted_bytes(t.3) <= usize::MAX,
{
    let cs = sort_changes(changes);
    if validate_from(text, cs, 0) is None {
        lemma_validated_ordered(text, cs);
        lemma_inserted_le_prefix(text, cs);
        lemma_byte_len_concat(spliced_prefix(text, cs), text.skip(resume_index(text, cs)));
    }
}

} // verus!
