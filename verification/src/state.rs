//! The game state container, its mode state machine, and the per-tick step.
//!
//! One external driver calls `tick` once per display frame with the frame's
//! elapsed milliseconds and at most one pending key. Rendering happens every
//! tick; physics runs only when the frame-time accumulator crosses a fixed
//! 40 ms threshold, after which the accumulator resets to zero, decoupling
//! the simulation rate from the display rate.

use vstd::prelude::*;

use crate::cloud::Cloud;
use crate::draw::{Colour, DrawCommand, Text, SCREEN_HEIGHT, SCREEN_WIDTH};
use crate::obstacle::{obstacle_size, Obstacle};
use crate::player::Player;

verus! {

/// Milliseconds of elapsed time that must accumulate before a physics step.
pub const FRAME_DURATION_MS: u64 = 40;

/// The three modes of the game.
#[derive(Clone, Copy, Debug, PartialEq, Eq, Structural)]
pub enum GameMode {
    Menu,
    Playing,
    End,
}

/// A key the game reacts to; the host maps every other key to no input.
#[derive(Clone, Copy, Debug, PartialEq, Eq, Structural)]
pub enum Key {
    P,
    Q,
    Space,
}

/// What one tick hands back to the host: the frame's drawing commands, and
/// whether the game asks the process loop to terminate.
pub struct TickOutput {
    pub draws: Vec<DrawCommand>,
    pub quit: bool,
}

/// The clear-to-sky command every frame starts with.
pub open spec fn clear_background() -> DrawCommand {
    DrawCommand::Clear { colour: Colour::Background }
}

/// The ground: one solid row of `#` across the full width at the bottom row.
pub open spec fn ground_cells() -> Seq<DrawCommand> {
    Seq::new(
        SCREEN_WIDTH as nat,
        |i: int|
            DrawCommand::Cell {
                x: i as i32,
                y: (SCREEN_HEIGHT - 1) as i32,
                fg: Colour::GrassFg,
                bg: Colour::GrassBg,
                glyph: '#',
            },
    )
}

/// The cells of a whole row of clouds, in order.
pub open spec fn clouds_cells(cs: Seq<Cloud>) -> Seq<DrawCommand>
    decreases cs.len(),
{
    if cs.len() == 0 {
        Seq::empty()
    } else {
        clouds_cells(cs.drop_last()) + Cloud::cells(cs.last())
    }
}

/// A centered text overlay in the menu and end screens.
pub open spec fn centered_text(y: i32, text: Text) -> DrawCommand {
    DrawCommand::TextCentered { y, fg: Colour::PlayerBody, bg: Colour::Background, text }
}

/// A left-aligned text overlay in the playing screen.
pub open spec fn left_text(y: i32, text: Text) -> DrawCommand {
    DrawCommand::TextLeft { x: 0, y, fg: Colour::PlayerBody, bg: Colour::Background, text }
}

/// The full playing frame: sky, ground, clouds, player, the two overlay
/// lines, then the obstacle at its screen column relative to the player.
pub open spec fn play_draws(cs: Seq<Cloud>, p: Player, score: i32, o: Obstacle) -> Seq<
    DrawCommand,
> {
    seq![clear_background()] + ground_cells() + clouds_cells(cs) + Player::cells(p) + seq![
        left_text(0, Text::FlapHint),
        left_text(1, Text::Score(score)),
    ] + Obstacle::cells(o, p.x)
}

/// The menu frame.
pub open spec fn menu_draws() -> Seq<DrawCommand> {
    seq![
        clear_background(),
        centered_text(5, Text::Welcome),
        centered_text(8, Text::PlayOption),
        centered_text(9, Text::QuitOption),
    ]
}

/// The end-screen frame, showing the score the run earned.
pub open spec fn dead_draws(score: i32) -> Seq<DrawCommand> {
    seq![
        clear_background(),
        centered_text(5, Text::Dead),
        centered_text(6, Text::Points(score)),
        centered_text(8, Text::PlayOption),
        centered_text(9, Text::QuitOption),
    ]
}

/// The whole game: one player, one live obstacle, the decorative clouds, the
/// frame-time accumulator in unsimulated milliseconds, the mode, and the
/// score of the current run.
pub struct State {
    pub player: Player,
    pub frame_time: u64,
    pub obstacle: Obstacle,
    pub clouds: Vec<Cloud>,
    pub mode: GameMode,
    pub score: i32,
}

/// Does this tick's elapsed time push the accumulator past the threshold?
pub open spec fn physics_due(pre: State, elapsed_ms: u32) -> bool {
    pre.frame_time + elapsed_ms > FRAME_DURATION_MS
}

/// The player as it stands after this tick's physics (if due) and flap (if
/// the space key is pending): physics first, then the flap impulse.
pub open spec fn played_player(pre: State, elapsed_ms: u32, key: Option<Key>) -> Player {
    let p = if physics_due(pre, elapsed_ms) {
        Player::gravity_spec(pre.player)
    } else {
        pre.player
    };
    if key == Some(Key::Space) {
        Player::flap_spec(p)
    } else {
        p
    }
}

/// What a restart leaves behind: the player back at its initial position and
/// at rest, a zeroed accumulator and score, a fresh obstacle at the right
/// edge of the screen sized for score 0, mode Playing — and the clouds
/// untouched, drifting on.
pub open spec fn restarted(pre: State, post: State) -> bool {
    &&& post.player == Player::new_spec(5, 25)
    &&& post.frame_time == 0
    &&& post.obstacle.x == SCREEN_WIDTH
    &&& post.obstacle.size == 20
    &&& 10 <= post.obstacle.gap_y < 40
    &&& post.mode == GameMode::Playing
    &&& post.score == 0
    &&& post.clouds == pre.clouds
}

/// What one menu tick does: draw the menu, then either restart on P, request
/// termination on Q, or ignore the input.
pub open spec fn menu_post(
    pre: State,
    key: Option<Key>,
    post: State,
    draws: Seq<DrawCommand>,
    quit: bool,
) -> bool {
    &&& draws == menu_draws()
    &&& match key {
        Some(Key::P) => restarted(pre, post) && quit == false,
        Some(Key::Q) => post == pre && quit == true,
        _ => post == pre && quit == false,
    }
}

/// What one end-screen tick does: draw the end screen with the run's score,
/// then either restart on P, request termination on Q, or ignore the input.
pub open spec fn dead_post(
    pre: State,
    key: Option<Key>,
    post: State,
    draws: Seq<DrawCommand>,
    quit: bool,
) -> bool {
    &&& draws == dead_draws(pre.score)
    &&& match key {
        Some(Key::P) => restarted(pre, post) && quit == false,
        Some(Key::Q) => post == pre && quit == true,
        _ => post == pre && quit == false,
    }
}

/// What one playing tick does, in order: accumulate elapsed time and, past
/// the threshold, reset the accumulator and run one physics step for the
/// player and every cloud; apply a pending flap or quit key; render the
/// frame against the pre-pass obstacle and score; then, if the player's
/// column has passed the obstacle's, score one point and spawn the
/// replacement a screen ahead, sized for the new score; and end the run iff
/// Q was pending, the player fell below the bottom boundary, or the player
/// collides with the (possibly fresh) obstacle.
pub open spec fn play_post(
    pre: State,
    elapsed_ms: u32,
    key: Option<Key>,
    post: State,
    draws: Seq<DrawCommand>,
    quit: bool,
) -> bool {
    let stepped = physics_due(pre, elapsed_ms);
    let p = played_player(pre, elapsed_ms, key);
    let passed = p.x > pre.obstacle.x;
    &&& post.player == p
    &&& post.frame_time == if stepped {
        0
    } else {
        pre.frame_time + elapsed_ms
    }
    &&& post.clouds@.len() == pre.clouds@.len()
    &&& (forall|i: int|
        0 <= i < pre.clouds@.len() ==> post.clouds@[i] == (if stepped {
            Cloud::update_spec(pre.clouds@[i])
        } else {
            pre.clouds@[i]
        }))
    &&& post.score == pre.score + (if passed {
        1int
    } else {
        0int
    })
    &&& (if passed {
        &&& post.obstacle.x == p.x + SCREEN_WIDTH
        &&& post.obstacle.size == obstacle_size(post.score as int)
        &&& 10 <= post.obstacle.gap_y < 40
    } else {
        post.obstacle == pre.obstacle
    })
    &&& post.mode == (if key == Some(Key::Q) || p.y > SCREEN_HEIGHT - 1 || Obstacle::hit_spec(
        p,
        post.obstacle,
    ) {
        GameMode::End
    } else {
        GameMode::Playing
    })
    &&& draws == play_draws(post.clouds@, p, pre.score, pre.obstacle)
    &&& quit == false
}

/// The four clouds a fresh game starts with: just off the left edge, on
/// separate rows, at four speeds and four shades.
pub open spec fn initial_clouds() -> Seq<Cloud> {
    seq![
        Cloud::new_spec(-10i32, 5i32, 1i32, Colour::CloudShade(225)),
        Cloud::new_spec(-10i32, 8i32, 3i32, Colour::CloudShade(245)),
        Cloud::new_spec(-10i32, 11i32, 2i32, Colour::CloudShade(235)),
        Cloud::new_spec(-10i32, 14i32, 4i32, Colour::CloudShade(255)),
    ]
}

impl State {
    /// Every entity is well formed, the accumulator never holds more than
    /// the threshold between ticks, the score never goes negative, and the
    /// live obstacle stays between one column behind the player and one
    /// screen ahead of it.
    pub open spec fn wf(self) -> bool {
        &&& self.player.wf()
        &&& self.obstacle.wf()
        &&& (forall|i: int| 0 <= i < self.clouds@.len() ==> self.clouds@[i].wf())
        &&& self.frame_time <= FRAME_DURATION_MS
        &&& 0 <= self.score
        &&& self.player.x <= self.obstacle.x + 1
        &&& self.obstacle.x <= self.player.x + SCREEN_WIDTH
    }

    /// A fresh game: mode Menu, score 0, the player at (5, 25) at rest, a
    /// fresh obstacle at the right edge sized for score 0, and the four
    /// clouds in their starting rows.
    pub fn new() -> (s: State)
        ensures
            s.player == Player::new_spec(5, 25),
            s.frame_time == 0,
            s.obstacle.x == SCREEN_WIDTH,
            s.obstacle.size == 20,
            10 <= s.obstacle.gap_y < 40,
            s.clouds@ == initial_clouds(),
            s.mode == GameMode::Menu,
            s.score == 0,
            s.wf(),
    {
        let mut clouds: Vec<Cloud> = Vec::new();
        clouds.push(Cloud::new(-10, 5, 1, Colour::CloudShade(225)));
        clouds.push(Cloud::new(-10, 8, 3, Colour::CloudShade(245)));
        clouds.push(Cloud::new(-10, 11, 2, Colour::CloudShade(235)));
        clouds.push(Cloud::new(-10, 14, 4, Colour::CloudShade(255)));
        proof {
            assert(clouds@ =~= initial_clouds());
        }
        State {
            player: Player::new(5, 25),
            frame_time: 0,
            obstacle: Obstacle::new(SCREEN_WIDTH, 0),
            clouds,
            mode: GameMode::Menu,
            score: 0,
        }
    }

    /// Begins a run: resets the player, the accumulator and the score,
    /// spawns a fresh obstacle at the right edge for score 0, and enters
    /// Playing. The clouds drift on untouched.
    pub fn restart(&mut self)
        requires
            old(self).wf(),
        ensures
            restarted(*old(self), *final(self)),
            final(self).wf(),
    {
        self.player = Player::new(5, 25);
        self.frame_time = 0;
        self.obstacle = Obstacle::new(SCREEN_WIDTH, 0);
        self.mode = GameMode::Playing;
        self.score = 0;
    }

    /// One menu tick.
    pub fn main_menu(&mut self, key: Option<Key>) -> (out: TickOutput)
        requires
            old(self).wf(),
        ensures
            menu_post(*old(self), key, *final(self), out.draws@, out.quit),
            final(self).wf(),
    {
        let mut draws: Vec<DrawCommand> = Vec::new();
        draws.push(DrawCommand::Clear { colour: Colour::Background });
        draws.push(DrawCommand::TextCentered {
            y: 5,
            fg: Colour::PlayerBody,
            bg: Colour::Background,
            text: Text::Welcome,
        });
        draws.push(DrawCommand::TextCentered {
            y: 8,
            fg: Colour::PlayerBody,
            bg: Colour::Background,
            text: Text::PlayOption,
        });
        draws.push(DrawCommand::TextCentered {
            y: 9,
            fg: Colour::PlayerBody,
            bg: Colour::Background,
            text: Text::QuitOption,
        });
        proof {
            assert(draws@ =~= menu_draws());
        }
        let mut quit = false;
        match key {
            Some(Key::P) => self.restart(),
            Some(Key::Q) => {
                quit = true;
            },
            _ => {},
        }
        TickOutput { draws, quit }
    }

    /// One end-screen tick.
    pub fn dead(&mut self, key: Option<Key>) -> (out: TickOutput)
        requires
            old(self).wf(),
        ensures
            dead_post(*old(self), key, *final(self), out.draws@, out.quit),
            final(self).wf(),
    {
        let mut draws: Vec<DrawCommand> = Vec::new();
        draws.push(DrawCommand::Clear { colour: Colour::Background });
        draws.push(DrawCommand::TextCentered {
            y: 5,
            fg: Colour::PlayerBody,
            bg: Colour::Background,
            text: Text::Dead,
        });
        draws.push(DrawCommand::TextCentered {
            y: 6,
            fg: Colour::PlayerBody,
            bg: Colour::Background,
            text: Text::Points(self.score),
        });
        draws.push(DrawCommand::TextCentered {
            y: 8,
            fg: Colour::PlayerBody,
            bg: Colour::Background,
            text: Text::PlayOption,
        });
        draws.push(DrawCommand::TextCentered {
            y: 9,
            fg: Colour::PlayerBody,
            bg: Colour::Background,
            text: Text::QuitOption,
        });
        proof {
            assert(draws@ =~= dead_draws(old(self).score));
        }
        let mut quit = false;
        match key {
            Some(Key::P) => self.restart(),
            Some(Key::Q) => {
                quit = true;
            },
            _ => {},
        }
        TickOutput { draws, quit }
    }

    /// One playing tick; see `play_post` for the full step, in order.
    pub fn play(&mut self, elapsed_ms: u32, key: Option<Key>) -> (out: TickOutput)
        requires
            old(self).wf(),
            old(self).mode == GameMode::Playing,
            old(self).player.x + 100 <= i32::MAX,
            old(self).player.y + 2 <= i32::MAX,
            old(self).score < i32::MAX,
        ensures
            play_post(*old(self), elapsed_ms, key, *final(self), out.draws@, out.quit),
            final(self).wf(),
    {
        let ghost pre = *old(self);
        let mut draws: Vec<DrawCommand> = Vec::new();
        draws.push(DrawCommand::Clear { colour: Colour::Background });

        let mut x: i32 = 0;
        while x < SCREEN_WIDTH
            invariant
                0 <= x <= SCREEN_WIDTH,
                draws@ =~= seq![clear_background()] + ground_cells().take(x as int),
            decreases SCREEN_WIDTH - x,
        {
            draws.push(DrawCommand::Cell {
                x,
                y: SCREEN_HEIGHT - 1,
                fg: Colour::GrassFg,
                bg: Colour::GrassBg,
                glyph: '#',
            });
            x = x + 1;
        }
        proof {
            assert(ground_cells().take(SCREEN_WIDTH as int) =~= ground_cells());
        }

        self.frame_time = self.frame_time + elapsed_ms as u64;
        if self.frame_time > FRAME_DURATION_MS {
            self.frame_time = 0;
            self.player.gravity_and_move();
            let n: usize = self.clouds.len();
            let mut updated: Vec<Cloud> = Vec::new();
            let mut i: usize = 0;
            while i < n
                invariant
                    i <= n,
                    self.clouds@ == pre.clouds@,
                    n == self.clouds@.len(),
                    forall|j: int| 0 <= j < pre.clouds@.len() ==> pre.clouds@[j].wf(),
                    updated@.len() == i as int,
                    forall|j: int|
                        0 <= j < i ==> updated@[j] == Cloud::update_spec(pre.clouds@[j])
                            && updated@[j].wf(),
                decreases n - i,
            {
                let mut c: Cloud = self.clouds[i];
                c.update();
                updated.push(c);
                i = i + 1;
            }
            self.clouds = updated;
        }

        match key {
            Some(Key::Space) => self.player.flap(),
            _ => {},
        }
        match key {
            Some(Key::Q) => {
                self.mode = GameMode::End;
            },
            _ => {},
        }

        let ghost p2 = self.player;
        let ghost cs = self.clouds@;
        proof {
            assert(p2 == played_player(pre, elapsed_ms, key));
            assert(forall|j: int| 0 <= j < cs.len() ==> cs[j].wf());
        }

        let ghost base = draws@;
        let mut i: usize = 0;
        while i < self.clouds.len()
            invariant
                i <= self.clouds@.len(),
                self.clouds@ == cs,
                forall|j: int| 0 <= j < cs.len() ==> cs[j].wf(),
                draws@ =~= base + clouds_cells(cs.take(i as int)),
            decreases self.clouds@.len() - i,
        {
            let mut cd = self.clouds[i].render();
            draws.append(&mut cd);
            proof {
                assert(cs.take(i + 1).drop_last() =~= cs.take(i as int));
                assert(cs.take(i + 1).last() == cs[i as int]);
            }
            i = i + 1;
        }
        proof {
            assert(cs.take(cs.len() as int) =~= cs);
            assert(draws@ =~= base + clouds_cells(cs));
        }

        let mut pd = self.player.render();
        draws.append(&mut pd);
        draws.push(DrawCommand::TextLeft {
            x: 0,
            y: 0,
            fg: Colour::PlayerBody,
            bg: Colour::Background,
            text: Text::FlapHint,
        });
        draws.push(DrawCommand::TextLeft {
            x: 0,
            y: 1,
            fg: Colour::PlayerBody,
            bg: Colour::Background,
            text: Text::Score(self.score),
        });
        let mut od = self.obstacle.render(self.player.x);
        draws.append(&mut od);
        proof {
            assert(draws@ =~= play_draws(cs, p2, pre.score, pre.obstacle));
        }

        if self.player.x > self.obstacle.x {
            self.score = self.score + 1;
            self.obstacle = Obstacle::new(self.player.x + SCREEN_WIDTH, self.score);
        }
        if self.player.y > SCREEN_HEIGHT - 1 || self.obstacle.hit_obstacle(&self.player) {
            self.mode = GameMode::End;
        }
        TickOutput { draws, quit: false }
    }

    /// One tick: dispatches on the current mode.
    pub fn tick(&mut self, elapsed_ms: u32, key: Option<Key>) -> (out: TickOutput)
        requires
            old(self).wf(),
            old(self).player.x + 100 <= i32::MAX,
            old(self).player.y + 2 <= i32::MAX,
            old(self).score < i32::MAX,
        ensures
            old(self).mode == GameMode::Menu ==> menu_post(
                *old(self),
                key,
                *final(self),
                out.draws@,
                out.quit,
            ),
            old(self).mode == GameMode::Playing ==> play_post(
                *old(self),
                elapsed_ms,
                key,
                *final(self),
                out.draws@,
                out.quit,
            ),
            old(self).mode == GameMode::End ==> dead_post(
                *old(self),
                key,
                *final(self),
                out.draws@,
                out.quit,
            ),
            final(self).wf(),
    {
        match self.mode {
            GameMode::Menu => self.main_menu(key),
            GameMode::End => self.dead(key),
            GameMode::Playing => self.play(elapsed_ms, key),
        }
    }
}

} // verus!
