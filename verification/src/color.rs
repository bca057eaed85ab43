//! The colors that a branch of the tree can carry.

use vstd::prelude::*;

verus! {

/// A named terminal color, an indexed terminal color, or an RGB triple.
///
/// The resolver never looks inside a color: it hands on the one that it found.
#[derive(Clone, Copy, Debug, PartialEq, Eq, Structural)]
pub enum Color {
    Black,
    Red,
    Green,
    Yellow,
    Blue,
    Magenta,
    Cyan,
    White,
    BrightBlack,
    BrightRed,
    BrightGreen,
    BrightYellow,
    BrightBlue,
    BrightMagenta,
    BrightCyan,
    BrightWhite,
    AnsiColor(u8),
    TrueColor { r: u8, g: u8, b: u8 },
}

/// The RGB color with the given channels.
pub open spec fn rgb(r: u8, g: u8, b: u8) -> Color {
    Color::TrueColor { r, g, b }
}

/// Makes the RGB color with the given channels.
pub fn from_rgb(r: u8, g: u8, b: u8) -> (c: Color)
    ensures
        c == rgb(r, g, b),
{
    Color::TrueColor { r, g, b }
}

} // verus!
