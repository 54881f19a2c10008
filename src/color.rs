//! The color value and the parse error.
use vstd::prelude::*;

verus! {

/// One in millionths: alpha, saturation and lightness are held as whole numbers of
/// millionths, so `UNIT` stands for 1.0 and `UNIT / 2` for 0.5.
pub const UNIT: u32 = 1_000_000;

/// A color with 8-bit red, green and blue channels and an alpha in millionths
/// (`0` is transparent, `UNIT` is opaque).
#[derive(Clone, Copy, Debug, PartialEq, Eq, Structural)]
pub struct Color {
    pub r: u8,
    pub g: u8,
    pub b: u8,
    pub a: u32,
}

/// The text is not a CSS color.
#[derive(Clone, Copy, Debug, PartialEq, Eq, Structural)]
pub struct ColorParseError;

impl ColorParseError {
    /// A human-readable description of the error.
    pub fn message(&self) -> (r: &'static str)
        ensures
            r@ == "invalid CSS color"@,
    {
        "invalid CSS color"
    }
}

/// An opaque color from its three channels.
pub open spec fn opaque(r: u8, g: u8, b: u8) -> Color {
    Color { r, g, b, a: UNIT }
}

} // verus!
