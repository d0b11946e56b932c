//! The corners of a console window rectangle.

use vstd::prelude::*;

verus! {

/// A console window rectangle, as the edges' positions on the screen
/// buffer's grid: the column of the leftmost and rightmost visible cells and
/// the row of the topmost and bottommost ones.
#[derive(Copy, Clone, Debug, PartialEq, Eq, Structural)]
pub struct WindowPositions {
    /// Column of the leftmost visible cell.
    pub left: i16,
    /// Row of the topmost visible cell.
    pub top: i16,
    /// Column of the rightmost visible cell.
    pub right: i16,
    /// Row of the bottommost visible cell.
    pub bottom: i16,
}

impl WindowPositions {
    /// A rectangle that lies on the buffer's grid: its corners are at
    /// non-negative positions and its edges are ordered.
    pub open spec fn wf(self) -> bool {
        0 <= self.left <= self.right && 0 <= self.top <= self.bottom
    }

    /// Create a window rectangle from its four edge positions.
    pub fn new(left: i16, top: i16, right: i16, bottom: i16) -> (w: WindowPositions)
        ensures
            w == (WindowPositions { left, top, right, bottom }),
    {
        WindowPositions { left, top, right, bottom }
    }
}

impl Default for WindowPositions {
    /// The one-cell rectangle at the origin.
    fn default() -> (w: WindowPositions)
        ensures
            w == (WindowPositions { left: 0i16, top: 0i16, right: 0i16, bottom: 0i16 }),
            w.wf(),
    {
        WindowPositions { left: 0, top: 0, right: 0, bottom: 0 }
    }
}

} // verus!
