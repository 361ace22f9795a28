//! Plain RGBA colors carried by tiles, fonts and vertex buffers.

use vstd::prelude::*;

verus! {

/// An RGBA color with 8 bits per channel.
///
/// Alpha 0 is fully transparent, alpha 255 fully opaque.
#[derive(Clone, Copy, PartialEq, Eq, Structural, Debug)]
pub struct Rgba {
    pub r: u8,
    pub g: u8,
    pub b: u8,
    pub a: u8,
}

impl Rgba {
    /// Build a color from its four channels.
    pub fn new(r: u8, g: u8, b: u8, a: u8) -> (c: Rgba)
        ensures
            c == (Rgba { r, g, b, a }),
    {
        Rgba { r, g, b, a }
    }

    /// Opaque white, the default foreground color of a tile.
    pub fn white() -> (c: Rgba)
        ensures
            c == (Rgba { r: 255u8, g: 255u8, b: 255u8, a: 255u8 }),
    {
        Rgba { r: 255, g: 255, b: 255, a: 255 }
    }

    /// Opaque black, the default clip color of a font.
    pub fn black() -> (c: Rgba)
        ensures
            c == (Rgba { r: 0u8, g: 0u8, b: 0u8, a: 255u8 }),
    {
        Rgba { r: 0, g: 0, b: 0, a: 255 }
    }

    /// Fully transparent black, the default background color of a tile.
    pub fn transparent() -> (c: Rgba)
        ensures
            c == (Rgba { r: 0u8, g: 0u8, b: 0u8, a: 0u8 }),
    {
        Rgba { r: 0, g: 0, b: 0, a: 0 }
    }
}

} // verus!
