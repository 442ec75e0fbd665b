//! Value types shared with the GPU-facing layer: an 8-bit-per-channel color
//! and the upload mode of a vertex buffer.

use vstd::prelude::*;

verus! {

/// How often the contents of a buffer are expected to change: set once, or
/// rewritten between draws.
pub enum BufferType {
    Static,
    Dynamic,
}

/// A color with 8-bit red, green, blue and alpha channels.
pub struct Color {
    pub r: u8,
    pub g: u8,
    pub b: u8,
    pub a: u8,
}

impl Color {
    /// Builds the color with the given channel values.
    pub fn from_rgba(r: u8, g: u8, b: u8, a: u8) -> (c: Color)
        ensures
            c.r == r,
            c.g == g,
            c.b == b,
            c.a == a,
    {
        Color { r, g, b, a }
    }
}

} // verus!
