//! Colours as the engine takes them, with each channel a fixed-point integer:
//! the engine's unit channel value is 1000 here.

use vstd::prelude::*;

verus! {

/// An opaque colour with red, green and blue channels in thousandths.
#[derive(Debug, Clone, Copy, PartialEq, Eq, Structural)]
pub struct Rgb {
    pub red: i64,
    pub green: i64,
    pub blue: i64,
}

/// A colour with an alpha channel, each channel in thousandths.
#[derive(Debug, Clone, Copy, PartialEq, Eq, Structural)]
pub struct Rgba {
    pub red: i64,
    pub green: i64,
    pub blue: i64,
    pub alpha: i64,
}

/// An opaque colour given in byte channels, as the engine's 8-bit
/// constructors take it.
#[derive(Debug, Clone, Copy, PartialEq, Eq, Structural)]
pub struct Srgb8 {
    pub red: u8,
    pub green: u8,
    pub blue: u8,
}

/// A colour given in byte channels, as the engine's 8-bit constructors take
/// it.
#[derive(Debug, Clone, Copy, PartialEq, Eq, Structural)]
pub struct Srgba8 {
    pub red: u8,
    pub green: u8,
    pub blue: u8,
    pub alpha: u8,
}

/// A hue (in thousandths of a degree), saturation and lightness colour.
#[derive(Debug, Clone, Copy, PartialEq, Eq, Structural)]
pub struct Hsl {
    pub hue: i64,
    pub saturation: i64,
    pub lightness: i64,
}

} // verus!
