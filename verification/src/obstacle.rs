//! Obstacle generation, collision, and rendering.
//!
//! Exactly one obstacle is live at a time, ahead of (or at) the player. Its
//! passable gap is centered at a row drawn uniformly from [10, 40) and its
//! height shrinks by one row per scored pass, floored at 2 — the game's sole
//! difficulty scaling.

use vstd::prelude::*;

use crate::draw::{Colour, DrawCommand, SCREEN_HEIGHT, SCREEN_WIDTH};
use crate::player::Player;
use crate::random::{rng_new, rng_range};

verus! {

/// The gap height a fresh obstacle gets at a given score: `20 - score`,
/// floored at 2.
pub open spec fn obstacle_size(score: int) -> int {
    if 20 - score < 2 {
        2
    } else {
        20 - score
    }
}

/// A vertical obstacle at world column `x`, passable through a gap centered
/// at row `gap_y` with height `size`.
#[derive(Clone, Copy, Debug, PartialEq, Eq, Structural)]
pub struct Obstacle {
    pub x: i32,
    pub gap_y: i32,
    pub size: i32,
}

impl Obstacle {
    /// The gap center stays in the generated range and the height between
    /// its floor and its score-zero maximum, so the gap edges stay within
    /// the rows of the surface.
    pub open spec fn wf(self) -> bool {
        &&& 10 <= self.gap_y < 40
        &&& 2 <= self.size <= 20
    }

    /// Generates the obstacle at world column `x` for the given score: the
    /// gap center is drawn uniformly from [10, 40), independent of the
    /// score, and the height is `20 - score` floored at 2.
    pub fn new(x: i32, score: i32) -> (o: Obstacle)
        requires
            0 <= score,
        ensures
            o.x == x,
            10 <= o.gap_y < 40,
            o.size == obstacle_size(score as int),
            o.wf(),
    {
        let mut random = rng_new();
        let gap_y = rng_range(&mut random, 10, 40);
        let shrunk = 20 - score;
        let size = if shrunk < 2 {
            2
        } else {
            shrunk
        };
        Obstacle { x, gap_y, size }
    }

    /// True iff the player collides with this obstacle: its column is
    /// exactly one ahead of the player's, and the player's row lies strictly
    /// above the gap's top edge or strictly below its bottom edge, the gap
    /// spanning `[gap_y - size / 2, gap_y + size / 2]` with the half-height
    /// truncated.
    pub open spec fn hit_spec(p: Player, o: Obstacle) -> bool {
        &&& p.x + 1 == o.x
        &&& (p.y < o.gap_y - o.size / 2 || p.y > o.gap_y + o.size / 2)
    }

    pub fn hit_obstacle(&self, player: &Player) -> (r: bool)
        requires
            self.wf(),
            player.x < i32::MAX,
        ensures
            r == Obstacle::hit_spec(*player, *self),
    {
        let half_size: i32 = ((self.size as u32) / 2) as i32;
        let does_x_match = player.x + 1 == self.x;
        let player_above_gap = player.y < self.gap_y - half_size;
        let player_below_gap = player.y > self.gap_y + half_size;
        does_x_match && (player_above_gap || player_below_gap)
    }

    /// The rendered obstacle at its screen column `x - player_x`: a `#` cell
    /// in every row from the top of the surface to the gap's top edge
    /// (exclusive), and from the gap's bottom edge (inclusive) to the ground
    /// row (exclusive).
    pub open spec fn cells(o: Obstacle, player_x: i32) -> Seq<DrawCommand> {
        let screen_x: int = o.x - player_x;
        let gap_top: int = o.gap_y - o.size / 2;
        let gap_bottom: int = o.gap_y + o.size / 2;
        Seq::new(
            gap_top as nat,
            |i: int|
                DrawCommand::Cell {
                    x: screen_x as i32,
                    y: i as i32,
                    fg: Colour::Red,
                    bg: Colour::Background,
                    glyph: '#',
                },
        ) + Seq::new(
            (SCREEN_HEIGHT - 1 - gap_bottom) as nat,
            |i: int|
                DrawCommand::Cell {
                    x: screen_x as i32,
                    y: (gap_bottom + i) as i32,
                    fg: Colour::Red,
                    bg: Colour::Background,
                    glyph: '#',
                },
        )
    }

    pub fn render(&self, player_x: i32) -> (r: Vec<DrawCommand>)
        requires
            self.wf(),
            i32::MIN <= self.x - player_x <= i32::MAX,
        ensures
            r@ == Obstacle::cells(*self, player_x),
    {
        let mut r: Vec<DrawCommand> = Vec::new();
        let screen_x: i32 = self.x - player_x;
        let half_size: i32 = ((self.size as u32) / 2) as i32;
        let gap_top: i32 = self.gap_y - half_size;
        let gap_bottom: i32 = self.gap_y + half_size;
        let mut y: i32 = 0;
        while y < gap_top
            invariant
                self.wf(),
                gap_top == self.gap_y - self.size / 2,
                gap_bottom == self.gap_y + self.size / 2,
                screen_x == self.x - player_x,
                0 <= y <= gap_top,
                r@ =~= Obstacle::cells(*self, player_x).take(y as int),
            decreases gap_top - y,
        {
            r.push(DrawCommand::Cell {
                x: screen_x,
                y,
                fg: Colour::Red,
                bg: Colour::Background,
                glyph: '#',
            });
            y = y + 1;
        }
        let mut y: i32 = gap_bottom;
        while y < SCREEN_HEIGHT - 1
            invariant
                self.wf(),
                gap_top == self.gap_y - self.size / 2,
                gap_bottom == self.gap_y + self.size / 2,
                screen_x == self.x - player_x,
                gap_bottom <= y <= SCREEN_HEIGHT - 1,
                r@ =~= Obstacle::cells(*self, player_x).take(gap_top + y - gap_bottom),
            decreases SCREEN_HEIGHT - 1 - y,
        {
            r.push(DrawCommand::Cell {
                x: screen_x,
                y,
                fg: Colour::Red,
                bg: Colour::Background,
                glyph: '#',
            });
            y = y + 1;
        }
        proof {
            assert(r@ =~= Obstacle::cells(*self, player_x));
        }
        r
    }
}

/// The gap of a fresh obstacle shrinks linearly with the score but never
/// below its floor: at score 0 it is 20 rows, it loses one row per point,
/// and from score 18 on it is exactly 2 — never less, whatever the score.
pub proof fn lemma_obstacle_size(score: int)
    requires
        0 <= score,
    ensures
        obstacle_size(score) == if score <= 18 {
            20 - score
        } else {
            2int
        },
        obstacle_size(score) >= 2,
        score >= 18 ==> obstacle_size(score) == 2,
{
}

} // verus!
