//! Plain value types shared by the console wrappers.

pub mod coord;
pub mod size;
pub mod window_positions;
