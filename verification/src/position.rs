//! Two-dimensional logical text coordinates.

use vstd::prelude::*;

verus! {

/// A logical location in a text, addressed by `row` and `col`.
#[derive(Debug, Clone, Copy, PartialEq, Eq, Structural, PartialOrd, Ord, Hash)]
pub struct Position {
    /// Row (line) index.
    pub row: u32,
    /// Column index inside the row.
    pub col: u32,
}

/// Lexicographic order on positions: first by row, then by column.
pub open spec fn pos_le(a: Position, b: Position) -> bool {
    a.row < b.row || (a.row == b.row && a.col <= b.col)
}

/// Strict lexicographic order on positions.
pub open spec fn pos_lt(a: Position, b: Position) -> bool {
    a.row < b.row || (a.row == b.row && a.col < b.col)
}

/// The smaller of two positions in lexicographic order.
pub open spec fn pos_min(a: Position, b: Position) -> Position {
    if pos_le(a, b) { a } else { b }
}

/// The larger of two positions in lexicographic order.
pub open spec fn pos_max(a: Position, b: Position) -> Position {
    if pos_le(a, b) { b } else { a }
}

/// Executable `a <= b` in lexicographic order.
pub fn position_le(a: Position, b: Position) -> (r: bool)
    ensures r == pos_le(a, b),
{
    a.row < b.row || (a.row == b.row && a.col <= b.col)
}

/// Executable `a < b` in lexicographic order.
pub fn position_lt(a: Position, b: Position) -> (r: bool)
    ensures r == pos_lt(a, b),
{
    a.row < b.row || (a.row == b.row && a.col < b.col)
}

impl Position {
    /// Builds a position from a row and a column.
    pub fn new(row: u32, col: u32) -> (p: Self)
        ensures p.row == row, p.col == col,
    {
        Position { row, col }
    }

    /// The start of the document.
    pub fn zero() -> (p: Self)
        ensures p.row == 0, p.col == 0,
    {
        Self::new(0, 0)
    }

    /// A copy of this position with another row.
    pub fn with_row(self, row: u32) -> (p: Self)
        ensures p.row == row, p.col == self.col,
    {
        Position { row, col: self.col }
    }

    /// A copy of this position with another column.
    pub fn with_col(self, col: u32) -> (p: Self)
        ensures p.row == self.row, p.col == col,
    {
        Position { row: self.row, col }
    }
}

impl Default for Position {
    /// The default position is the start of the document.
    fn default() -> (p: Self)
        ensures p.row == 0, p.col == 0,
    {
        Self::zero()
    }
}

} // verus!
