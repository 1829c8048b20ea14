//! Color value types: RGB and RGBA with 8-bit channels.

use vstd::prelude::*;

verus! {

/// An RGB color with 8-bit channels.
#[derive(Copy, Clone, PartialEq, Eq, Structural, Debug)]
pub struct Rgb {
    pub r: u8,
    pub g: u8,
    pub b: u8,
}

/// An RGBA color with 8-bit channels.
#[derive(Copy, Clone, PartialEq, Eq, Structural, Debug)]
pub struct Rgba {
    pub r: u8,
    pub g: u8,
    pub b: u8,
    pub a: u8,
}

impl Rgb {
    /// Makes a color from its three channels.
    pub fn new(r: u8, g: u8, b: u8) -> (c: Rgb)
        ensures
            c.r == r,
            c.g == g,
            c.b == b,
    {
        Rgb { r, g, b }
    }

    /// The same color with a fully opaque alpha channel.
    pub fn to_rgba(self) -> (c: Rgba)
        ensures
            c.r == self.r,
            c.g == self.g,
            c.b == self.b,
            c.a == 255,
    {
        Rgba { r: self.r, g: self.g, b: self.b, a: 255 }
    }
}

impl Rgba {
    /// Makes a color from its four channels.
    pub fn new(r: u8, g: u8, b: u8, a: u8) -> (c: Rgba)
        ensures
            c.r == r,
            c.g == g,
            c.b == b,
            c.a == a,
    {
        Rgba { r, g, b, a }
    }
}

} // verus!
