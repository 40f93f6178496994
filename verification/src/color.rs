//! Packed 24-bit RGB colors: red in bits 16..24, green in bits 8..16,
//! blue in bits 0..8. No alpha, no arithmetic beyond construction and
//! exact value equality.

use vstd::prelude::*;

verus! {

/// Packed value of pure red.
pub const RED: u32 = 65536 * 255;

/// Packed value of pure green.
pub const GREEN: u32 = 256 * 255;

/// Packed value of pure blue.
pub const BLUE: u32 = 255;

/// Packed value of yellow (red + green).
pub const YELLOW: u32 = 65536 * 255 + 256 * 255;

/// Packed value of cyan (green + blue).
pub const CYAN: u32 = 256 * 255 + 255;

/// Packed value of magenta (red + blue).
pub const MAGENTA: u32 = 65536 * 255 + 255;

/// Packed value of black.
pub const BLACK: u32 = 0;

/// Packed value of white.
pub const WHITE: u32 = 65536 * 256 - 1;

/// An opaque packed RGB triple, 8 bits per channel.
#[derive(Clone, Copy, PartialEq, Eq, Structural, Debug)]
pub struct Color {
    packed: u32,
}

impl Color {
    /// The packed 24-bit value, as seen by specifications.
    pub closed spec fn spec_packed(self) -> u32 {
        self.packed
    }

    /// A well-formed color fits in 24 bits.
    pub open spec fn wf(self) -> bool {
        self.spec_packed() < 0x1000000
    }

    /// Pack three 8-bit channels into a color.
    pub fn rgb(r: u8, g: u8, b: u8) -> (c: Color)
        ensures
            c.spec_packed() == 65536 * (r as u32) + 256 * (g as u32) + (b as u32),
            c.wf(),
    {
        Color { packed: 65536 * (r as u32) + 256 * (g as u32) + (b as u32) }
    }

    /// Wrap an already-packed 24-bit value.
    pub fn from_packed(p: u32) -> (c: Color)
        requires
            p < 0x1000000,
        ensures
            c.spec_packed() == p,
            c.wf(),
    {
        Color { packed: p }
    }

    /// The packed 24-bit value.
    pub fn packed(&self) -> (p: u32)
        ensures
            p == self.spec_packed(),
    {
        self.packed
    }
}

} // verus!
