//! A snapshot of a screen buffer's metadata.

use vstd::prelude::*;

use crate::structs::coord::Coord;
use crate::structs::size::Size;
use crate::structs::window_positions::WindowPositions;

verus! {

/// The metadata of a screen buffer as one query reported it: the buffer's
/// size, the cursor position, the character attributes in effect, the window
/// rectangle shown, and the largest window the buffer could show. A
/// read-only snapshot, not a live view.
#[derive(Copy, Clone, Debug)]
pub struct ScreenBufferInfo {
    size: Size,
    cursor: Coord,
    attributes: u16,
    window: WindowPositions,
    maximum_window_size: Size,
}

impl ScreenBufferInfo {
    /// The window rectangle a query reports always lies on the buffer's
    /// grid.
    #[verifier::type_invariant]
    pub closed spec fn inv(self) -> bool {
        self.window.wf()
    }

    /// The buffer's size.
    pub closed spec fn size_spec(self) -> Size {
        self.size
    }

    /// The cursor position.
    pub closed spec fn cursor_spec(self) -> Coord {
        self.cursor
    }

    /// The character attributes.
    pub closed spec fn attributes_spec(self) -> u16 {
        self.attributes
    }

    /// The window rectangle.
    pub closed spec fn window_spec(self) -> WindowPositions {
        self.window
    }

    /// The largest window size.
    pub closed spec fn maximum_window_size_spec(self) -> Size {
        self.maximum_window_size
    }

    /// Assemble a snapshot from the plain fields of a native info record.
    pub fn new(
        size: Size,
        cursor: Coord,
        attributes: u16,
        window: WindowPositions,
        maximum_window_size: Size,
    ) -> (info: ScreenBufferInfo)
        requires
            window.wf(),
        ensures
            info.size_spec() == size,
            info.cursor_spec() == cursor,
            info.attributes_spec() == attributes,
            info.window_spec() == window,
            info.maximum_window_size_spec() == maximum_window_size,
    {
        ScreenBufferInfo { size, cursor, attributes, window, maximum_window_size }
    }

    /// Assemble a snapshot, refusing a window rectangle that does not lie on
    /// the buffer's grid.
    pub fn from_parts(
        size: Size,
        cursor: Coord,
        attributes: u16,
        window: WindowPositions,
        maximum_window_size: Size,
    ) -> (info: Option<ScreenBufferInfo>)
        ensures
            info is Some <==> window.wf(),
            info matches Some(i) ==> {
                &&& i.size_spec() == size
                &&& i.cursor_spec() == cursor
                &&& i.attributes_spec() == attributes
                &&& i.window_spec() == window
                &&& i.maximum_window_size_spec() == maximum_window_size
            },
    {
        if 0 <= window.left && window.left <= window.right && 0 <= window.top && window.top
            <= window.bottom {
            Some(ScreenBufferInfo { size, cursor, attributes, window, maximum_window_size })
        } else {
            None
        }
    }

    /// The size of the screen buffer's character grid.
    pub fn buffer_size(&self) -> (s: Size)
        ensures
            s == self.size_spec(),
    {
        self.size
    }

    /// The size of the terminal window: the extent of the window rectangle
    /// along each axis.
    pub fn terminal_size(&self) -> (s: Size)
        ensures
            s.width == self.window_spec().right - self.window_spec().left,
            s.height == self.window_spec().bottom - self.window_spec().top,
    {
        proof {
            use_type_invariant(&*self);
        }
        Size::new(self.window.right - self.window.left, self.window.bottom - self.window.top)
    }

    /// The position of the terminal window on the buffer's grid.
    pub fn terminal_window(&self) -> (w: WindowPositions)
        ensures
            w == self.window_spec(),
            w.wf(),
    {
        proof {
            use_type_invariant(&*self);
        }
        self.window
    }

    /// The character attributes in effect.
    pub fn attributes(&self) -> (a: u16)
        ensures
            a == self.attributes_spec(),
    {
        self.attributes
    }

    /// The cursor position on the buffer's grid.
    pub fn cursor_pos(&self) -> (c: Coord)
        ensures
            c == self.cursor_spec(),
    {
        self.cursor
    }

    /// The largest window size the buffer could show, given the current
    /// font and screen.
    pub fn largest_window_size(&self) -> (s: Size)
        ensures
            s == self.maximum_window_size_spec(),
    {
        self.maximum_window_size
    }
}

} // verus!
