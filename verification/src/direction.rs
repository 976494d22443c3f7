//! Direction and axis values shared by navigation and layout code.

use vstd::prelude::*;

verus! {

/// A direction along one dimension.
#[derive(Debug, Clone, Copy, PartialEq, Eq, Structural, Hash)]
pub enum Direction {
    /// Forward.
    Forward,
    /// Backward.
    Backward,
}

/// An axis of the plane.
#[derive(Debug, Clone, Copy, PartialEq, Eq, Structural, Hash)]
pub enum Axis {
    /// Horizontal.
    Horizontal,
    /// Vertical.
    Vertical,
}

} // verus!
