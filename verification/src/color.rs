//! The fixed palette a cell's foreground and background are drawn from.

use vstd::prelude::*;

verus! {

/// One of the nine named terminal colors, or the terminal's own default.
#[derive(Clone, Copy, Debug, PartialEq, Eq, Structural)]
pub enum Color {
    Black,
    Red,
    Green,
    Yellow,
    Blue,
    Magenta,
    Cyan,
    White,
    Grey,
    /// The terminal's configured default color.
    Reset,
}

impl Color {
    /// The color as a standard ANSI palette index; `None` stands for the
    /// terminal's default.
    pub fn ansi_index(self) -> (r: Option<u8>)
        ensures
            r == self.spec_ansi_index(),
    {
        match self {
            Color::Black => Some(0),
            Color::Red => Some(1),
            Color::Green => Some(2),
            Color::Yellow => Some(3),
            Color::Blue => Some(4),
            Color::Magenta => Some(5),
            Color::Cyan => Some(6),
            Color::White => Some(7),
            Color::Grey => Some(8),
            Color::Reset => None,
        }
    }

    pub open spec fn spec_ansi_index(self) -> Option<u8> {
        match self {
            Color::Black => Some(0),
            Color::Red => Some(1),
            Color::Green => Some(2),
            Color::Yellow => Some(3),
            Color::Blue => Some(4),
            Color::Magenta => Some(5),
            Color::Cyan => Some(6),
            Color::White => Some(7),
            Color::Grey => Some(8),
            Color::Reset => None,
        }
    }
}

} // verus!
