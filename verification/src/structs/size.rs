//! A width/height pair.
//!
//! The console reports extents as pairs of 16-bit signed coordinates; this
//! type carries such a pair under field names that say which axis is which.

use vstd::prelude::*;

use crate::structs::coord::Coord;

verus! {

/// The size of something in width and height, in 16-bit signed units, as the
/// console subsystem measures character cells.
#[derive(Copy, Clone, Debug, PartialEq, Eq, Structural)]
pub struct Size {
    /// Extent along the horizontal axis.
    pub width: i16,
    /// Extent along the vertical axis.
    pub height: i16,
}

impl Size {
    /// Create a new size instance by passing in the width and height.
    pub fn new(width: i16, height: i16) -> (s: Size)
        ensures
            s.width == width,
            s.height == height,
    {
        Size { width, height }
    }

    /// The bit pattern of a 16-bit signed value, read as unsigned.
    pub open spec fn u16_bits_spec(v: i16) -> u16 {
        if v >= 0 {
            v as u16
        } else {
            (v + 0x10000) as u16
        }
    }

    /// Reinterpret a 16-bit signed value as unsigned, keeping the bits.
    pub fn u16_bits(v: i16) -> (u: u16)
        ensures
            u == Size::u16_bits_spec(v),
    {
        if v >= 0 {
            v as u16
        } else {
            ((v as i32) + 0x10000) as u16
        }
    }
}

impl Default for Size {
    /// The zero size.
    fn default() -> (s: Size)
        ensures
            s.width == 0,
            s.height == 0,
    {
        Size { width: 0, height: 0 }
    }
}

impl From<Coord> for Size {
    /// Read a coordinate pair as a size: the horizontal coordinate becomes
    /// the width and the vertical one the height.
    fn from(coord: Coord) -> (s: Size)
        ensures
            s == (Size { width: coord.x, height: coord.y }),
    {
        Size::new(coord.x, coord.y)
    }
}

impl vstd::std_specs::convert::FromSpecImpl<Coord> for Size {
    open spec fn obeys_from_spec() -> bool {
        true
    }

    open spec fn from_spec(coord: Coord) -> Size {
        Size { width: coord.x, height: coord.y }
    }
}

impl From<Size> for (u16, u16) {
    /// The width/height pair with each coordinate's bits read as unsigned.
    fn from(val: Size) -> (pair: (u16, u16))
        ensures
            pair.0 == Size::u16_bits_spec(val.width),
            pair.1 == Size::u16_bits_spec(val.height),
    {
        (Size::u16_bits(val.width), Size::u16_bits(val.height))
    }
}

impl vstd::std_specs::convert::FromSpecImpl<Size> for (u16, u16) {
    open spec fn obeys_from_spec() -> bool {
        true
    }

    open spec fn from_spec(val: Size) -> (u16, u16) {
        (Size::u16_bits_spec(val.width), Size::u16_bits_spec(val.height))
    }
}

} // verus!
