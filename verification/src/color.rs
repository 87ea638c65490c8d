//! Colours and frames.

use vstd::prelude::*;

verus! {

/// One pixel's colour: three 8-bit sRGB channels.
#[derive(Clone, Copy, Debug, PartialEq, Eq, Structural)]
pub struct Color {
    pub red: u8,
    pub green: u8,
    pub blue: u8,
}

/// One ordered sequence of colours, one per pixel position.
pub type Frame = Vec<Color>;

impl Color {
    /// The colour with the given channels.
    pub fn new(red: u8, green: u8, blue: u8) -> (color: Color)
        ensures
            color == (Color { red, green, blue }),
        no_unwind
    {
        Color { red, green, blue }
    }
}

} // verus!
