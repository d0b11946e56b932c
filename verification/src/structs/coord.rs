//! An x/y coordinate pair.

use vstd::prelude::*;

verus! {

/// A position or extent on the console grid, in 16-bit signed units, the
/// shape in which the console subsystem reports coordinates.
#[derive(Copy, Clone, Debug, PartialEq, Eq, Structural)]
pub struct Coord {
    /// Position along the horizontal axis.
    pub x: i16,
    /// Position along the vertical axis.
    pub y: i16,
}

impl Coord {
    /// Create a new coordinate from its two components.
    pub fn new(x: i16, y: i16) -> (c: Coord)
        ensures
            c.x == x,
            c.y == y,
    {
        Coord { x, y }
    }
}

impl Default for Coord {
    /// The origin.
    fn default() -> (c: Coord)
        ensures
            c.x == 0,
            c.y == 0,
    {
        Coord { x: 0, y: 0 }
    }
}

} // verus!
