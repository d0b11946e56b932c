//! A snapshot of a screen buffer's current font.

use vstd::prelude::*;

use crate::structs::size::Size;

verus! {

/// The font of a screen buffer as one query reported it: the index of the
/// font in the console's font table, and the size of one character cell in
/// pixels. A read-only snapshot for the buffer's current window size, not
/// its maximum.
#[derive(Copy, Clone, Debug)]
pub struct FontInfo {
    index: u32,
    size: Size,
}

impl FontInfo {
    /// The font's index in the console's font table.
    pub closed spec fn index_spec(self) -> u32 {
        self.index
    }

    /// The size of one character cell, in pixels.
    pub closed spec fn size_spec(self) -> Size {
        self.size
    }

    /// Assemble a snapshot from the plain fields of a native font record.
    pub fn new(index: u32, size: Size) -> (info: FontInfo)
        ensures
            info.index_spec() == index,
            info.size_spec() == size,
    {
        FontInfo { index, size }
    }

    /// The font's index in the console's font table.
    pub fn index(&self) -> (i: u32)
        ensures
            i == self.index_spec(),
    {
        self.index
    }

    /// The size of one character cell, in pixels.
    pub fn size(&self) -> (s: Size)
        ensures
            s == self.size_spec(),
    {
        self.size
    }
}

} // verus!
