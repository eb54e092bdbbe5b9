//! Plain geometric values shared by the spotlight logic.

use vstd::prelude::*;

verus! {

/// A point in absolute screen coordinates.
#[derive(Debug, Clone, Copy, PartialEq, Eq)]
pub struct Position {
    pub x: i32,
    pub y: i32,
}

impl Position {
    /// Builds the position `(x, y)`.
    pub fn new(x: i32, y: i32) -> (p: Self)
        ensures
            p == (Position { x, y }),
    {
        Position { x, y }
    }

    /// Tells whether two positions name the same point.
    pub fn same_as(&self, other: &Position) -> (same: bool)
        ensures
            same == (*self == *other),
    {
        self.x == other.x && self.y == other.y
    }
}

/// The rectangle that encloses every monitor: its origin in absolute screen
/// coordinates and its size.
#[derive(Debug, Clone, Copy, PartialEq, Eq)]
pub struct VirtualScreen {
    pub x: i32,
    pub y: i32,
    pub width: i32,
    pub height: i32,
}

} // verus!
