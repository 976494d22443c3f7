//! The editor's document state: text, selection and version.

use vstd::prelude::*;

use crate::position::Position;
use crate::selection::{sel_end, sel_start, Selection};
use crate::text::{
    addressable, byte_len, byte_offset, char_floor, clamp_selection_to_text, index_of_position,
    is_char_boundary, lemma_byte_offset_strict_mono, lemma_char_floor_of_offset,
    offset_of_position, position_at_offset, string_from_chars, TextBuffer,
};

verus! {

/// Document version used for optimistic concurrency between the editor and
/// the runtime: every effective change of text or selection increments it.
#[derive(Debug, Clone, Copy, Default, PartialEq, Eq, Structural, PartialOrd, Ord, Hash)]
pub struct DocVersion(u64);

impl View for DocVersion {
    type V = u64;

    closed spec fn view(&self) -> u64 {
        self.0
    }
}

impl DocVersion {
    /// The version with the given counter, in specifications.
    pub closed spec fn spec_of(n: u64) -> DocVersion {
        DocVersion(n)
    }

    /// `spec_of` and the view are inverse to each other.
    pub broadcast proof fn lemma_spec_of(n: u64)
        ensures (#[trigger] DocVersion::spec_of(n))@ == n,
    {
    }

    /// Versions with equal counters are equal.
    pub broadcast proof fn lemma_view_injective(a: DocVersion)
        ensures DocVersion::spec_of(#[trigger] a@) == a,
    {
    }

    /// The version of a fresh document.
    pub fn zero() -> (v: Self)
        ensures v@ == 0, v == DocVersion::spec_of(0),
    {
        DocVersion(0)
    }

    /// The strictly next version.
    pub fn next(self) -> (v: Self)
        requires self@ < u64::MAX,
        ensures v@ == self@ + 1, v == DocVersion::spec_of((self@ + 1) as u64),
    {
        DocVersion(self.0 + 1)
    }

    /// The underlying counter.
    pub fn get(self) -> (n: u64)
        ensures n == self@,
    {
        self.0
    }

    /// The version with the given counter.
    pub fn from_u64(value: u64) -> (v: Self)
        ensures v@ == value, v == DocVersion::spec_of(value),
    {
        DocVersion(value)
    }
}

impl From<u64> for DocVersion {
    fn from(value: u64) -> (v: Self)
        ensures v == DocVersion::spec_of(value), v@ == value,
    {
        DocVersion(value)
    }
}

impl vstd::std_specs::convert::FromSpecImpl<u64> for DocVersion {
    open spec fn obeys_from_spec() -> bool {
        true
    }

    closed spec fn from_spec(value: u64) -> DocVersion {
        DocVersion(value)
    }
}

/// Byte offsets into the text.
pub type Offset = usize;

/// The editor state: text buffer, selection and version.
#[derive(Debug, PartialEq, Eq)]
pub struct EditorState {
    buffer: TextBuffer,
    selection: Selection,
    version: DocVersion,
}

impl View for EditorState {
    /// `(text, selection, version)`.
    type V = (Seq<char>, Selection, u64);

    closed spec fn view(&self) -> (Seq<char>, Selection, u64) {
        (self.buffer@, self.selection, self.version@)
    }
}

/// The text a selection covers in `s`, when the selection has extent.
pub open spec fn selected_text_spec(s: Seq<char>, sel: Selection) -> Option<Seq<char>> {
    let from = index_of_position(s, sel_start(sel).row as int, sel_start(sel).col as int);
    let to = index_of_position(s, sel_end(sel).row as int, sel_end(sel).col as int);
    if sel@.0 == sel@.1 || from >= to {
        None
    } else {
        Some(s.subrange(from, to))
    }
}

impl Clone for EditorState {
    /// A state with the same text, selection and version.
    fn clone(&self) -> (r: Self)
        ensures r@ == self@,
    {
        EditorState { buffer: self.buffer.clone(), selection: self.selection, version: self.version }
    }
}

impl EditorState {
    /// A state with the given text, the caret at `(0, 0)` and version 0.
    pub fn from_text(text: &str) -> (st: Self)
        requires addressable(text@),
        ensures
            st@.0 == text@,
            st@.1@ == (Position { row: 0, col: 0 }, Position { row: 0, col: 0 }),
            st@.2 == 0,
    {
        EditorState {
            buffer: TextBuffer::from_text(text),
            selection: Selection::caret(Position::zero()),
            version: DocVersion::zero(),
        }
    }

    /// A state assembled from its parts.
    pub fn from_parts(buffer: TextBuffer, selection: Selection, version: DocVersion) -> (st: Self)
        ensures st@ == (buffer@, selection, version@),
    {
        EditorState { buffer, selection, version }
    }

    /// The whole text.
    pub fn text(&self) -> (s: String)
        ensures s@ == self@.0,
    {
        self.buffer.to_string()
    }

    /// The text length in UTF-8 bytes.
    pub fn len(&self) -> (n: usize)
        ensures n == byte_len(self@.0),
    {
        self.buffer.len()
    }

    /// Whether the text is empty.
    pub fn is_empty(&self) -> (b: bool)
        ensures b == (self@.0.len() == 0),
    {
        self.buffer.is_empty()
    }

    /// The current selection.
    pub fn selection(&self) -> (s: Selection)
        ensures s == self@.1,
    {
        self.selection
    }

    /// The current version.
    pub fn version(&self) -> (v: DocVersion)
        ensures v@ == self@.2,
    {
        self.version
    }

    /// The text buffer.
    pub fn buffer(&self) -> (b: &TextBuffer)
        ensures b@ == self@.0,
    {
        &self.buffer
    }

    /// The selected text; `None` for a caret.
    pub fn selected_text(&self) -> (r: Option<String>)
        ensures
            selected_text_spec(self@.0, self@.1) is None ==> r is None,
            selected_text_spec(self@.0, self@.1) matches Some(t) ==> r is Some && r->0@ == t,
    {
        let selection = self.selection;
        if selection.is_caret() {
            return None;
        }
        let chars = self.buffer.chars();
        let start = selection.start();
        let end = selection.end();
        let from = crate::text::index_of_target(chars, start.row as u64, start.col as u64);
        let to = crate::text::index_of_target(chars, end.row as u64, end.col as u64);
        if from >= to {
            return None;
        }
        Some(string_from_chars(chars, from, to))
    }

    /// The byte offset of a position (clamped onto the text).
    pub fn position_to_offset(&self, position: Position) -> (off: Offset)
        ensures
            off == offset_of_position(self@.0, position),
            is_char_boundary(self@.0, off as int),
            off <= byte_len(self@.0),
    {
        self.buffer.position_to_offset(position)
    }

    /// The position of a byte offset; offsets past the end clamp to the end.
    pub fn offset_to_position(&self, offset: Offset) -> (p: Position)
        requires offset >= byte_len(self@.0) || is_char_boundary(self@.0, offset as int),
        ensures p == position_at_offset(self@.0, offset as int),
    {
        self.buffer.position_at_or_before(offset)
    }
}

} // verus!
