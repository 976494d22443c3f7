//! Half-open logical ranges `[start, end)` over positions.

use vstd::prelude::*;

use crate::position::{pos_le, pos_lt, position_le, position_lt, Position};

verus! {

/// A logical range with half-open semantics `[start, end)`; always normalized
/// so that `start <= end`.
#[derive(Debug, Clone, Copy, PartialEq, Eq, Structural, Hash)]
pub struct Range {
    start: Position,
    end: Position,
}

impl View for Range {
    type V = (Position, Position);

    closed spec fn view(&self) -> (Position, Position) {
        (self.start, self.end)
    }
}

impl Range {
    #[verifier::type_invariant]
    spec fn normalized_inv(self) -> bool {
        pos_le(self.start, self.end)
    }

    /// Builds a range from two end points; the smaller one becomes the start.
    pub fn new(start: Position, end: Position) -> (r: Self)
        ensures
            pos_le(start, end) ==> r@ == (start, end),
            !pos_le(start, end) ==> r@ == (end, start),
            pos_le(r@.0, r@.1),
    {
        if position_le(start, end) {
            Range { start, end }
        } else {
            Range { start: end, end: start }
        }
    }

    /// The start of the range.
    pub fn start(self) -> (p: Position)
        ensures p == self@.0, pos_le(self@.0, self@.1),
    {
        proof { use_type_invariant(&self); }
        self.start
    }

    /// The (excluded) end of the range.
    pub fn end(self) -> (p: Position)
        ensures p == self@.1, pos_le(self@.0, self@.1),
    {
        proof { use_type_invariant(&self); }
        self.end
    }

    /// The same range; it is normalized by construction.
    pub fn normalized(self) -> (r: Self)
        ensures r == self, pos_le(r@.0, r@.1),
    {
        proof { use_type_invariant(&self); }
        self
    }

    /// Whether the range holds no position.
    pub fn is_empty(self) -> (b: bool)
        ensures b == (self@.0 == self@.1),
    {
        self.start == self.end
    }

    /// Whether `position` lies inside the half-open range.
    pub fn contains(self, position: Position) -> (b: bool)
        ensures b == (pos_le(self@.0, position) && pos_lt(position, self@.1)),
    {
        position_le(self.start, position) && position_lt(position, self.end)
    }

    /// Whether `other` lies entirely inside this range.
    pub fn contains_range(self, other: Self) -> (b: bool)
        ensures b == (pos_le(self@.0, other@.0) && pos_le(other@.1, self@.1)),
    {
        position_le(self.start, other.start) && position_le(other.end, self.end)
    }

    /// Whether the two half-open ranges share at least one position.
    pub fn intersects(self, other: Self) -> (b: bool)
        ensures b == (pos_lt(self@.0, other@.1) && pos_lt(other@.0, self@.1)),
    {
        position_lt(self.start, other.end) && position_lt(other.start, self.end)
    }
}

} // verus!
