//! The RGBA color value handed to the renderer. The mapping from cell age
//! and color scheme to a color runs in floating point outside this crate;
//! the value type and its exact integer operations live here.

use vstd::prelude::*;
use crate::config::UNIT_SCALE;
use crate::rules::clamp_unit;

verus! {

/// An RGBA color, one byte per channel.
#[derive(Clone, Copy, Debug, PartialEq, Eq, Structural)]
pub struct Color {
    /// Red channel.
    pub r: u8,
    /// Green channel.
    pub g: u8,
    /// Blue channel.
    pub b: u8,
    /// Alpha channel.
    pub a: u8,
}

/// The color packed into one little-endian RGBA word: alpha in the top
/// byte, then blue, green, red.
pub open spec fn packed_u32(c: Color) -> u32 {
    ((c.a as u32) * 0x1000000 + (c.b as u32) * 0x10000 + (c.g as u32) * 0x100 + (c.r as u32)) as u32
}

impl Color {
    /// A color from its four channels.
    pub fn new(r: u8, g: u8, b: u8, a: u8) -> (c: Color)
        ensures
            c == (Color { r, g, b, a }),
    {
        Color { r, g, b, a }
    }

    /// Opaque black.
    pub fn black() -> (c: Color)
        ensures
            c == (Color { r: 0u8, g: 0u8, b: 0u8, a: 255u8 }),
    {
        Color { r: 0, g: 0, b: 0, a: 255 }
    }

    /// Opaque white.
    pub fn white() -> (c: Color)
        ensures
            c == (Color { r: 255u8, g: 255u8, b: 255u8, a: 255u8 }),
    {
        Color { r: 255, g: 255, b: 255, a: 255 }
    }

    /// The channels as an RGBA byte array.
    pub fn to_rgba(&self) -> (bytes: [u8; 4])
        ensures
            bytes@ == seq![self.r, self.g, self.b, self.a],
    {
        let bytes = [self.r, self.g, self.b, self.a];
        proof {
            assert(bytes@ =~= seq![self.r, self.g, self.b, self.a]);
        }
        bytes
    }

    /// The color packed into one RGBA word.
    pub fn to_u32(&self) -> (v: u32)
        ensures
            v == packed_u32(*self),
    {
        let av = self.a as u32;
        let bv = self.b as u32;
        let gv = self.g as u32;
        let rv = self.r as u32;
        av * 0x1000000 + bv * 0x10000 + gv * 0x100 + rv
    }

    /// The same color with the given alpha.
    pub fn with_alpha(&self, alpha: u8) -> (c: Color)
        ensures
            c == (Color { r: self.r, g: self.g, b: self.b, a: alpha }),
    {
        Color { r: self.r, g: self.g, b: self.b, a: alpha }
    }

    /// The color with its alpha scaled by `factor` thousandths, clamped to
    /// [0, 1]: 0 is transparent, `UNIT_SCALE` keeps the alpha.
    pub fn fade(&self, factor: u64) -> (c: Color)
        ensures
            c.r == self.r,
            c.g == self.g,
            c.b == self.b,
            c.a as int == (self.a as int) * (clamp_unit(factor) as int) / (UNIT_SCALE as int),
    {
        let f = if factor > UNIT_SCALE {
            UNIT_SCALE
        } else {
            factor
        };
        proof {
            assert((self.a as int) * (f as int) <= 255 * 1000) by (nonlinear_arith)
                requires
                    0 <= self.a as int <= 255,
                    0 <= f as int <= 1000,
            ;
            vstd::arithmetic::div_mod::lemma_div_is_ordered(
                (self.a as int) * (f as int),
                255 * 1000 as int,
                UNIT_SCALE as int,
            );
        }
        let alpha = ((self.a as u64) * f) / UNIT_SCALE;
        self.with_alpha(alpha as u8)
    }
}

} // verus!
