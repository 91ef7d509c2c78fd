//! Decorative clouds drifting leftward across the sky.
//!
//! A cloud's horizontal position is kept in quarters of a cell, so the drift
//! speeds of 0.25, 0.5, 0.75 and 1.0 cells per step are the integers 1 to 4;
//! the rendered column is the floor of that position. Once the cloud's full
//! visual width is off the left edge it teleports back to the right edge,
//! scrolling forever.

use vstd::prelude::*;

use crate::draw::{Colour, DrawCommand, SCREEN_WIDTH};

verus! {

/// The floor (rounding toward negative infinity) of `q` quarters, in cells.
pub open spec fn quarters_to_cells(q: int) -> int {
    q / 4
}

/// A decorative cloud: a rendered column `x`, the quarter-cell position
/// backing it, a fixed row, a leftward speed in quarters of a cell per
/// update, and a colour.
#[derive(Clone, Copy, Debug, PartialEq, Eq, Structural)]
pub struct Cloud {
    pub x: i32,
    pub real_x_quarters: i32,
    pub y: i32,
    pub speed_quarters: i32,
    pub colour: Colour,
}

impl Cloud {
    /// The rendered column is the floor of the backing position; the
    /// position stays between just past the left wrap threshold and the
    /// right edge, the speed is positive and at most two cells per update,
    /// and the row keeps the three-row cloud shape on the surface.
    pub open spec fn wf(self) -> bool {
        &&& self.x == quarters_to_cells(self.real_x_quarters as int)
        &&& -84 <= self.real_x_quarters <= 4 * SCREEN_WIDTH
        &&& 1 <= self.speed_quarters <= 8
        &&& 0 <= self.y <= 47
    }

    /// A cloud freshly placed at column `x`: the backing position agrees
    /// with the column exactly.
    pub open spec fn new_spec(x: i32, y: i32, speed_quarters: i32, colour: Colour) -> Cloud {
        Cloud { x, real_x_quarters: (4 * x) as i32, y, speed_quarters, colour }
    }

    pub fn new(x: i32, y: i32, speed_quarters: i32, colour: Colour) -> (c: Cloud)
        requires
            -21 <= x <= SCREEN_WIDTH,
            0 <= y <= 47,
            1 <= speed_quarters <= 8,
        ensures
            c == Cloud::new_spec(x, y, speed_quarters, colour),
            c.wf(),
    {
        let c = Cloud { x, real_x_quarters: 4 * x, y, speed_quarters, colour };
        proof {
            assert(c.x == quarters_to_cells(c.real_x_quarters as int)) by (nonlinear_arith)
                requires
                    c.real_x_quarters == 4 * c.x,
                    -21 <= c.x <= 80,
            ;
        }
        c
    }

    /// One animation step: the backing position drifts left by the speed and
    /// the column floors it; once the column's full visual width of 20 cells
    /// is past the left edge, the cloud teleports to the right edge with the
    /// backing position resynchronised.
    pub open spec fn update_spec(c: Cloud) -> Cloud {
        let drifted: int = c.real_x_quarters - c.speed_quarters;
        let col: int = quarters_to_cells(drifted);
        if col + 20 < 0 {
            Cloud {
                x: SCREEN_WIDTH,
                real_x_quarters: (4 * SCREEN_WIDTH) as i32,
                ..c
            }
        } else {
            Cloud { x: col as i32, real_x_quarters: drifted as i32, ..c }
        }
    }

    pub fn update(&mut self)
        requires
            old(self).wf(),
        ensures
            *final(self) == Cloud::update_spec(*old(self)),
            final(self).wf(),
    {
        self.real_x_quarters = self.real_x_quarters - self.speed_quarters;
        let q: i32 = self.real_x_quarters;
        self.x = if q >= 0 {
            ((q as u32) / 4) as i32
        } else {
            -((((-q) as u32 + 3) / 4) as i32)
        };
        assert(self.x == quarters_to_cells(q as int));
        if self.x + 20 < 0 {
            self.x = SCREEN_WIDTH;
            self.real_x_quarters = 4 * SCREEN_WIDTH;
        }
    }

    /// The thirteen cells of the rendered cloud: an outline of underscores
    /// and parentheses over three rows, anchored at column `x`.
    pub open spec fn cells(c: Cloud) -> Seq<DrawCommand> {
        seq![
            DrawCommand::Cell {
                x: (c.x + 3) as i32,
                y: c.y,
                fg: c.colour,
                bg: Colour::Background,
                glyph: '_',
            },
            DrawCommand::Cell {
                x: (c.x + 1) as i32,
                y: (c.y + 1) as i32,
                fg: c.colour,
                bg: Colour::Background,
                glyph: '_',
            },
            DrawCommand::Cell {
                x: (c.x + 2) as i32,
                y: (c.y + 1) as i32,
                fg: c.colour,
                bg: Colour::Background,
                glyph: '(',
            },
            DrawCommand::Cell {
                x: (c.x + 4) as i32,
                y: (c.y + 1) as i32,
                fg: c.colour,
                bg: Colour::Background,
                glyph: ')',
            },
            DrawCommand::Cell {
                x: (c.x + 5) as i32,
                y: (c.y + 1) as i32,
                fg: c.colour,
                bg: Colour::Background,
                glyph: '_',
            },
            DrawCommand::Cell {
                x: c.x,
                y: (c.y + 2) as i32,
                fg: c.colour,
                bg: Colour::Background,
                glyph: '(',
            },
            DrawCommand::Cell {
                x: (c.x + 1) as i32,
                y: (c.y + 2) as i32,
                fg: c.colour,
                bg: Colour::Background,
                glyph: '_',
            },
            DrawCommand::Cell {
                x: (c.x + 2) as i32,
                y: (c.y + 2) as i32,
                fg: c.colour,
                bg: Colour::Background,
                glyph: '_',
            },
            DrawCommand::Cell {
                x: (c.x + 3) as i32,
                y: (c.y + 2) as i32,
                fg: c.colour,
                bg: Colour::Background,
                glyph: '_',
            },
            DrawCommand::Cell {
                x: (c.x + 4) as i32,
                y: (c.y + 2) as i32,
                fg: c.colour,
                bg: Colour::Background,
                glyph: '_',
            },
            DrawCommand::Cell {
                x: (c.x + 5) as i32,
                y: (c.y + 2) as i32,
                fg: c.colour,
                bg: Colour::Background,
                glyph: '_',
            },
            DrawCommand::Cell {
                x: (c.x + 6) as i32,
                y: (c.y + 2) as i32,
                fg: c.colour,
                bg: Colour::Background,
                glyph: '_',
            },
            DrawCommand::Cell {
                x: (c.x + 7) as i32,
                y: (c.y + 2) as i32,
                fg: c.colour,
                bg: Colour::Background,
                glyph: ')',
            },
        ]
    }

    pub fn render(&self) -> (r: Vec<DrawCommand>)
        requires
            self.wf(),
        ensures
            r@ == Cloud::cells(*self),
    {
        let mut r: Vec<DrawCommand> = Vec::new();
        let x: i32 = self.x;
        let y: i32 = self.y;
        let fg: Colour = self.colour;
        let bg: Colour = Colour::Background;
        r.push(DrawCommand::Cell { x: x + 3, y, fg, bg, glyph: '_' });
        r.push(DrawCommand::Cell { x: x + 1, y: y + 1, fg, bg, glyph: '_' });
        r.push(DrawCommand::Cell { x: x + 2, y: y + 1, fg, bg, glyph: '(' });
        r.push(DrawCommand::Cell { x: x + 4, y: y + 1, fg, bg, glyph: ')' });
        r.push(DrawCommand::Cell { x: x + 5, y: y + 1, fg, bg, glyph: '_' });
        r.push(DrawCommand::Cell { x, y: y + 2, fg, bg, glyph: '(' });
        r.push(DrawCommand::Cell { x: x + 1, y: y + 2, fg, bg, glyph: '_' });
        r.push(DrawCommand::Cell { x: x + 2, y: y + 2, fg, bg, glyph: '_' });
        r.push(DrawCommand::Cell { x: x + 3, y: y + 2, fg, bg, glyph: '_' });
        r.push(DrawCommand::Cell { x: x + 4, y: y + 2, fg, bg, glyph: '_' });
        r.push(DrawCommand::Cell { x: x + 5, y: y + 2, fg, bg, glyph: '_' });
        r.push(DrawCommand::Cell { x: x + 6, y: y + 2, fg, bg, glyph: '_' });
        r.push(DrawCommand::Cell { x: x + 7, y: y + 2, fg, bg, glyph: ')' });
        assert(r@ =~= Cloud::cells(*self));
        r
    }
}

} // verus!
