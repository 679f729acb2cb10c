//! A single addressable terminal character: the unit a widget submits.

use vstd::prelude::*;

use crate::color::Color;

verus! {

/// A character on the terminal: a grid position plus a foreground and a
/// background color. Immutable once created; owned by the frame it was
/// submitted to until row reconstruction consumes it.
#[derive(Clone, Copy, Debug, PartialEq, Eq, Structural)]
pub struct Pixel {
    pub char: char,
    /// Column, 0-based.
    pub x: u16,
    /// Row, 0-based.
    pub y: u16,
    pub fg: Color,
    pub bg: Color,
}

/// The blank cell that gap-filling synthesizes: a space in default style.
pub open spec fn blank_at(x: u16, y: u16) -> Pixel {
    Pixel { char: ' ', x, y, fg: Color::Reset, bg: Color::Reset }
}

impl Pixel {
    /// A pixel at the origin in default style; position and colors are
    /// filled in with the builder methods below.
    pub fn new(char: char) -> (r: Pixel)
        ensures
            r == (Pixel { char, x: 0, y: 0, fg: Color::Reset, bg: Color::Reset }),
    {
        Pixel { char, x: 0, y: 0, fg: Color::Reset, bg: Color::Reset }
    }

    pub fn fg(self, fg: Color) -> (r: Pixel)
        ensures
            r == (Pixel { fg, ..self }),
    {
        Pixel { fg, ..self }
    }

    pub fn bg(self, bg: Color) -> (r: Pixel)
        ensures
            r == (Pixel { bg, ..self }),
    {
        Pixel { bg, ..self }
    }

    pub fn set_coords(self, x: u16, y: u16) -> (r: Pixel)
        ensures
            r == (Pixel { x, y, ..self }),
    {
        Pixel { x, y, ..self }
    }
}

/// The portion of screen a widget is asked to draw on.
#[derive(Clone, Copy, Debug, PartialEq, Eq, Structural)]
pub struct Area {
    pub x: u16,
    pub y: u16,
    pub width: u16,
    pub height: u16,
}

} // verus!
