//! Colors and the bit order in which a WS2812 receives them.
use vstd::prelude::*;

verus! {

/// An RGB color with 8 bits per channel.
#[derive(Clone, Copy, Debug, PartialEq, Eq, Structural)]
pub struct Color {
    pub r: u8,
    pub g: u8,
    pub b: u8,
}

impl Color {
    /// A color from its red, green and blue intensities.
    pub fn new(r: u8, g: u8, b: u8) -> (c: Color)
        ensures
            c.r == r,
            c.g == g,
            c.b == b,
    {
        Color { r, g, b }
    }
}

/// The 24 bits that a WS2812 receives for `c`: green, then red, then blue.
pub open spec fn grb_word(c: Color) -> u32 {
    ((c.g as u32) << 16u32) | ((c.r as u32) << 8u32) | (c.b as u32)
}

/// Bit `i` of the transmitted order of `c`, counting from the most significant
/// bit of green (`i == 0`) to the least significant bit of blue (`i == 23`).
pub open spec fn color_bit(c: Color, i: int) -> bool {
    (grb_word(c) >> ((23 - i) as u32)) & 1u32 == 1u32
}

/// Bit `i` of the transmitted order of `c` (see [`color_bit`]).
pub fn frame_bit(c: &Color, i: usize) -> (bit: bool)
    requires
        i < 24,
    ensures
        bit == color_bit(*c, i as int),
{
    let word: u32 = ((c.g as u32) << 16u32) | ((c.r as u32) << 8u32) | (c.b as u32);
    let shift: u32 = 23 - i as u32;
    (word >> shift) & 1u32 == 1u32
}

} // verus!
