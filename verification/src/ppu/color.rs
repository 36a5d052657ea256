//! The four shades of the monochrome screen.
use vstd::prelude::*;

verus! {

/// A shade of grey, from lightest to darkest.
#[derive(Clone, Copy, PartialEq, Eq, Debug, Structural)]
pub enum Color {
    White,
    LightGrey,
    DarkGrey,
    Black,
}

/// The shade that a two-bit color number selects; 3 and above are black.
pub open spec fn color_from_byte(c: u8) -> Color {
    if c == 0 {
        Color::White
    } else if c == 1 {
        Color::LightGrey
    } else if c == 2 {
        Color::DarkGrey
    } else {
        Color::Black
    }
}

impl Color {
    /// The shade that color number `c` selects; any value above 2 is black.
    pub fn from_byte(c: u8) -> (r: Color)
        ensures
            r == color_from_byte(c),
    {
        match c {
            0 => Color::White,
            1 => Color::LightGrey,
            2 => Color::DarkGrey,
            _ => Color::Black,
        }
    }
}

} // verus!
