//! Drawing commands handed to the rendering host once per tick.
//!
//! The library decides which cells, glyphs and colour roles make up a frame;
//! the host maps colour roles to concrete RGB values and text roles to
//! concrete strings, and performs the writes on its drawing surface.

use vstd::prelude::*;

verus! {

/// Width of the host's drawing surface, in columns.
pub const SCREEN_WIDTH: i32 = 80;

/// Height of the host's drawing surface, in rows; the bottom row is ground.
pub const SCREEN_HEIGHT: i32 = 50;

/// A colour role of the frame. The host owns the palette that maps each role
/// to an RGB triple; `CloudShade(n)` stands for the uniform grey `(n, n, n)`.
#[derive(Clone, Copy, Debug, PartialEq, Eq, Structural)]
pub enum Colour {
    Background,
    GrassFg,
    GrassBg,
    PlayerBody,
    Red,
    CloudShade(u8),
}

/// A line of text of the frame. The host owns the concrete wording and
/// formats the carried score where one is carried.
#[derive(Clone, Copy, Debug, PartialEq, Eq, Structural)]
pub enum Text {
    FlapHint,
    Score(i32),
    Dead,
    Points(i32),
    Welcome,
    PlayOption,
    QuitOption,
}

/// One drawing instruction. A frame is a sequence of these, applied in order
/// to the host's 80 x 50 cell surface.
#[derive(Clone, Copy, Debug, PartialEq, Eq, Structural)]
pub enum DrawCommand {
    /// Clear the whole surface to a solid colour.
    Clear { colour: Colour },
    /// Put one glyph at a cell; writes outside the surface are ignored.
    Cell { x: i32, y: i32, fg: Colour, bg: Colour, glyph: char },
    /// Print a text line starting at a cell.
    TextLeft { x: i32, y: i32, fg: Colour, bg: Colour, text: Text },
    /// Print a text line centered in a row.
    TextCentered { y: i32, fg: Colour, bg: Colour, text: Text },
}

} // verus!
