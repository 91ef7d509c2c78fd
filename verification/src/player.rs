//! The player entity and its physics.
//!
//! Vertical velocity is measured in tenths of a cell per physics step, so the
//! gravity increment of 0.2 cells is `2`, the terminal velocity of 2.0 cells
//! is `20`, and the flap impulse of -2.0 cells is `-20`. Each step the player
//! falls by the integer truncation of its velocity, so sub-cell velocities
//! move it by nothing for several steps.

use vstd::prelude::*;

use crate::draw::{Colour, DrawCommand};

verus! {

/// Gravity adds this many velocity tenths per physics step.
pub const GRAVITY_TENTHS: i32 = 2;

/// Velocity never grows past this many tenths downward.
pub const TERMINAL_VELOCITY_TENTHS: i32 = 20;

/// A flap sets the velocity to this many tenths (upward).
pub const FLAP_VELOCITY_TENTHS: i32 = -20;

/// The integer truncation (rounding toward zero) of `v` tenths, in cells.
pub open spec fn tenths_to_cells(v: int) -> int {
    if v >= 0 {
        v / 10
    } else {
        -((-v) / 10)
    }
}

/// The player: a world position, the previous step's row (used only to pick
/// the rendered orientation), and a vertical velocity in tenths of a cell.
#[derive(Clone, Copy, Debug, PartialEq, Eq, Structural)]
pub struct Player {
    pub x: i32,
    pub y: i32,
    pub last_y: i32,
    pub velocity_tenths: i32,
}

impl Player {
    /// The player never leaves the top boundary, and its velocity stays an
    /// even number of tenths between the flap impulse and terminal velocity.
    pub open spec fn wf(self) -> bool {
        &&& 0 <= self.y
        &&& FLAP_VELOCITY_TENTHS <= self.velocity_tenths <= TERMINAL_VELOCITY_TENTHS
        &&& self.velocity_tenths % 2 == 0
    }

    /// A player freshly placed at `(x, y)`: at rest, facing level.
    pub open spec fn new_spec(x: i32, y: i32) -> Player {
        Player { x, y, last_y: y, velocity_tenths: 0 }
    }

    pub fn new(x: i32, y: i32) -> (p: Player)
        requires
            0 <= y,
        ensures
            p == Player::new_spec(x, y),
            p.wf(),
    {
        Player { x, y, last_y: y, velocity_tenths: 0 }
    }

    /// One physics step: gravity accumulates the velocity up to terminal
    /// velocity, the row moves by the truncated velocity, the column advances
    /// by exactly one, and the row is clamped to the top boundary.
    pub open spec fn gravity_spec(p: Player) -> Player {
        let v: int = if p.velocity_tenths < TERMINAL_VELOCITY_TENTHS {
            p.velocity_tenths + GRAVITY_TENTHS
        } else {
            p.velocity_tenths as int
        };
        let fallen: int = p.y + tenths_to_cells(v);
        let clamped: int = if fallen < 0 {
            0
        } else {
            fallen
        };
        Player {
            x: (p.x + 1) as i32,
            y: clamped as i32,
            last_y: p.y,
            velocity_tenths: v as i32,
        }
    }

    pub fn gravity_and_move(&mut self)
        requires
            old(self).wf(),
            old(self).x < i32::MAX,
            old(self).y + 2 <= i32::MAX,
        ensures
            *final(self) == Player::gravity_spec(*old(self)),
            final(self).wf(),
    {
        if self.velocity_tenths < TERMINAL_VELOCITY_TENTHS {
            self.velocity_tenths = self.velocity_tenths + GRAVITY_TENTHS;
        }
        self.last_y = self.y;
        let v: i32 = self.velocity_tenths;
        let fall: i32 = if v >= 0 {
            ((v as u32) / 10) as i32
        } else {
            -((((-v) as u32) / 10) as i32)
        };
        self.y = self.y + fall;
        self.x = self.x + 1;
        if self.y < 0 {
            self.y = 0;
        }
    }

    /// A flap: the velocity becomes the upward impulse, whatever it was.
    pub open spec fn flap_spec(p: Player) -> Player {
        Player { velocity_tenths: FLAP_VELOCITY_TENTHS, ..p }
    }

    pub fn flap(&mut self)
        requires
            old(self).wf(),
        ensures
            *final(self) == Player::flap_spec(*old(self)),
            final(self).wf(),
    {
        self.velocity_tenths = FLAP_VELOCITY_TENTHS;
    }

    /// The three cells of the rendered player, fixed at columns 0..2: the
    /// glyph triple reads "\@/" when descending or level, mirrored "/@\"
    /// when ascending.
    pub open spec fn cells(p: Player) -> Seq<DrawCommand> {
        if p.last_y <= p.y {
            seq![
                DrawCommand::Cell {
                    x: 0,
                    y: p.y,
                    fg: Colour::PlayerBody,
                    bg: Colour::Background,
                    glyph: '\\',
                },
                DrawCommand::Cell {
                    x: 1,
                    y: p.y,
                    fg: Colour::PlayerBody,
                    bg: Colour::Background,
                    glyph: '@',
                },
                DrawCommand::Cell {
                    x: 2,
                    y: p.y,
                    fg: Colour::PlayerBody,
                    bg: Colour::Background,
                    glyph: '/',
                },
            ]
        } else {
            seq![
                DrawCommand::Cell {
                    x: 2,
                    y: p.y,
                    fg: Colour::PlayerBody,
                    bg: Colour::Background,
                    glyph: '\\',
                },
                DrawCommand::Cell {
                    x: 1,
                    y: p.y,
                    fg: Colour::PlayerBody,
                    bg: Colour::Background,
                    glyph: '@',
                },
                DrawCommand::Cell {
                    x: 0,
                    y: p.y,
                    fg: Colour::PlayerBody,
                    bg: Colour::Background,
                    glyph: '/',
                },
            ]
        }
    }

    pub fn render(&self) -> (r: Vec<DrawCommand>)
        ensures
            r@ == Player::cells(*self),
    {
        let mut r: Vec<DrawCommand> = Vec::new();
        if self.last_y <= self.y {
            r.push(DrawCommand::Cell {
                x: 0,
                y: self.y,
                fg: Colour::PlayerBody,
                bg: Colour::Background,
                glyph: '\\',
            });
            r.push(DrawCommand::Cell {
                x: 1,
                y: self.y,
                fg: Colour::PlayerBody,
                bg: Colour::Background,
                glyph: '@',
            });
            r.push(DrawCommand::Cell {
                x: 2,
                y: self.y,
                fg: Colour::PlayerBody,
                bg: Colour::Background,
                glyph: '/',
            });
        } else {
            r.push(DrawCommand::Cell {
                x: 2,
                y: self.y,
                fg: Colour::PlayerBody,
                bg: Colour::Background,
                glyph: '\\',
            });
            r.push(DrawCommand::Cell {
                x: 1,
                y: self.y,
                fg: Colour::PlayerBody,
                bg: Colour::Background,
                glyph: '@',
            });
            r.push(DrawCommand::Cell {
                x: 0,
                y: self.y,
                fg: Colour::PlayerBody,
                bg: Colour::Background,
                glyph: '/',
            });
        }
        assert(r@ =~= Player::cells(*self));
        r
    }
}

/// A flap overrides any prior velocity, so flapping twice in a row leaves
/// exactly the state one flap leaves: the flap action is idempotent.
pub proof fn lemma_flap_idempotent(p: Player)
    ensures
        Player::flap_spec(p).velocity_tenths == FLAP_VELOCITY_TENTHS,
        Player::flap_spec(Player::flap_spec(p)) == Player::flap_spec(p),
{
}

/// Each physics step advances the world column by exactly one, and a flap
/// never moves it: the system invariant the single-instant collision check
/// at `x + 1` relies on, since it guarantees every column is visited.
pub proof fn lemma_step_advances_one_column(p: Player)
    requires
        p.x < i32::MAX,
    ensures
        Player::gravity_spec(p).x == p.x + 1,
        Player::flap_spec(p).x == p.x,
{
}

/// With no flap, one physics step never lifts the player: the row is
/// non-decreasing, and the velocity is non-decreasing up to terminal
/// velocity.
pub proof fn lemma_gravity_step_monotone(p: Player)
    requires
        p.wf(),
        p.velocity_tenths >= 0,
        p.y + 2 <= i32::MAX,
    ensures
        Player::gravity_spec(p).wf(),
        Player::gravity_spec(p).velocity_tenths >= 0,
        p.y <= Player::gravity_spec(p).y <= p.y + 2,
        Player::gravity_spec(p).velocity_tenths >= p.velocity_tenths,
        Player::gravity_spec(p).velocity_tenths <= TERMINAL_VELOCITY_TENTHS,
{
    let pv: int = p.velocity_tenths as int;
    let v: int = if pv < TERMINAL_VELOCITY_TENTHS {
        pv + GRAVITY_TENTHS
    } else {
        pv
    };
    assert(v % 2 == 0 && v <= 20) by (nonlinear_arith)
        requires
            pv % 2 == 0,
            0 <= pv <= 20,
            v == if pv < 20 {
                pv + 2
            } else {
                pv
            },
    ;
    assert(0 <= v / 10 <= 2) by (nonlinear_arith)
        requires
            0 <= v <= 20,
    ;
}

/// The player after `n` physics steps with no flap in between.
pub open spec fn glide(p: Player, n: nat) -> Player
    decreases n,
{
    if n == 0 {
        p
    } else {
        Player::gravity_spec(glide(p, (n - 1) as nat))
    }
}

/// Over any whole sequence of physics steps with no flap input, starting
/// from a non-rising player, the row is non-decreasing (the clamp at the top
/// boundary never lowers it) and the velocity is non-decreasing up to a
/// ceiling of terminal velocity.
pub proof fn lemma_glide_monotone(p: Player, n: nat)
    requires
        p.wf(),
        p.velocity_tenths >= 0,
        p.y + 2 * n <= i32::MAX,
    ensures
        glide(p, n).wf(),
        glide(p, n).velocity_tenths >= 0,
        p.y <= glide(p, n).y <= p.y + 2 * n,
        glide(p, n).velocity_tenths >= p.velocity_tenths,
        n > 0 ==> glide(p, n).velocity_tenths <= TERMINAL_VELOCITY_TENTHS,
    decreases n,
{
    if n > 0 {
        lemma_glide_monotone(p, (n - 1) as nat);
        lemma_gravity_step_monotone(glide(p, (n - 1) as nat));
    }
}

} // verus!
