//! Pixels as a drawing library hands them over.

use embedded_graphics::pixelcolor::raw::RawData;
use embedded_graphics::pixelcolor::raw::RawU1;
use embedded_graphics::pixelcolor::BinaryColor;
use vstd::prelude::*;

verus! {

/// The two states of a pixel on a monochrome panel.
#[derive(Clone, Copy, Debug, PartialEq, Eq, Structural)]
pub enum Color {
    /// The pixel is dark.
    Off,
    /// The pixel is lit.
    On,
}

impl Color {
    /// The raw one-bit value of the colour: 0 for off, 1 for on.
    pub open spec fn raw(self) -> u8 {
        match self {
            Color::Off => 0,
            Color::On => 1,
        }
    }
}

/// A pixel to draw: a position in the picture, which may lie off the panel
/// on any side, and a colour.
#[derive(Clone, Copy, Debug, PartialEq, Eq, Structural)]
pub struct Pixel {
    /// Column, counted from the left edge of the picture.
    pub x: i32,
    /// Row, counted from the top edge of the picture.
    pub y: i32,
    /// The state to put the pixel in.
    pub color: Color,
}

/// The raw value of a colour as embedded-graphics defines it: the colour is
/// turned into that crate's `BinaryColor`, from there into a `RawU1` by
/// `RawU1::from`, and read out with `RawData::into_inner`. Trusted: that the
/// outcome is 0 for off and 1 for on, as the crate's source has it.
#[verifier::external_body]
pub(crate) fn raw_value(color: Color) -> (raw: u8)
    ensures
        raw == color.raw(),
{
    let binary = match color {
        Color::Off => BinaryColor::Off,
        Color::On => BinaryColor::On,
    };
    RawU1::from(binary).into_inner()
}

} // verus!
