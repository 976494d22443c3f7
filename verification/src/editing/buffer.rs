//! A plain text buffer seen as lines.

use vstd::prelude::*;

use crate::lines::{detect_line_ending, line_ending_of, lines_of, split_lines, strings_view};

verus! {

/// An editor buffer holding a text.
#[derive(Debug, Clone, PartialEq, Eq)]
pub struct EditorBuffer {
    text: String,
}

impl View for EditorBuffer {
    type V = Seq<char>;

    closed spec fn view(&self) -> Seq<char> {
        self.text@
    }
}

impl EditorBuffer {
    /// A buffer holding `text`.
    pub fn from_text(text: &str) -> (b: Self)
        ensures b@ == text@,
    {
        EditorBuffer { text: text.to_owned() }
    }

    /// The text.
    pub fn as_str(&self) -> (s: &str)
        ensures s@ == self@,
    {
        self.text.as_str()
    }

    /// The lines of the text, split on `'\n'` with trailing `'\r'` dropped.
    pub fn lines(&self) -> (v: Vec<String>)
        ensures strings_view(v@) == lines_of(self@), v@.len() >= 1,
    {
        split_lines(self.as_str())
    }

    /// The line ending style of the text.
    pub fn line_ending(&self) -> (s: String)
        ensures s@ == line_ending_of(self@),
    {
        detect_line_ending(self.as_str())
    }

    /// The number of lines (at least 1).
    pub fn line_count(&self) -> (n: usize)
        ensures n == lines_of(self@).len(), n >= 1,
    {
        let lines = self.lines();
        proof { assert(strings_view(lines@).len() == lines@.len()); }
        lines.len()
    }
}

} // verus!
