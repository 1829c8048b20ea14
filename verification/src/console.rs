//! Value types shared by console renderers: the glyph cell of a simple
//! console and text alignment.

use crate::color::Rgb;
use vstd::prelude::*;

verus! {

/// The internal storage type for tiles in a simple console: a glyph with a
/// foreground and a background color.
#[derive(Copy, Clone, PartialEq, Eq, Structural, Debug)]
pub struct Tile {
    pub glyph: u8,
    pub fg: Rgb,
    pub bg: Rgb,
}

impl Tile {
    /// Makes a tile from its glyph and colors.
    pub fn new(glyph: u8, fg: Rgb, bg: Rgb) -> (t: Tile)
        ensures
            t.glyph == glyph,
            t.fg == fg,
            t.bg == bg,
    {
        Tile { glyph, fg, bg }
    }
}

/// How printed text is aligned around its anchor column.
#[derive(Copy, Clone, PartialEq, Eq, Structural, Debug)]
pub enum TextAlign {
    Left,
    Center,
    Right,
}

} // verus!
