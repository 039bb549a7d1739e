//! Pairs of unsigned integers: a size in cells, a cell's coordinate, an offset.

use vstd::prelude::*;

verus! {

/// A pair of unsigned integers, read as a width and a height, as the column
/// and row of a cell, or as an offset in device pixels.
#[derive(Clone, Copy, Debug, PartialEq, Eq, Structural)]
pub struct Vector2 {
    pub x: usize,
    pub y: usize,
}

impl Vector2 {
    /// The pair `(x, y)`.
    pub fn new(x: usize, y: usize) -> (v: Self)
        ensures
            v.x == x,
            v.y == y,
    {
        Vector2 { x, y }
    }
}

} // verus!
