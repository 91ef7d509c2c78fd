use flappy_dragon::cloud::Cloud;
use flappy_dragon::draw::{Colour, DrawCommand, Text};
use flappy_dragon::obstacle::Obstacle;
use flappy_dragon::player::Player;
use flappy_dragon::state::{GameMode, Key, State};

fn playing_state(player: Player, obstacle: Obstacle) -> State {
    State {
        player,
        frame_time: 0,
        obstacle,
        clouds: vec![],
        mode: GameMode::Playing,
        score: 0,
    }
}

#[test]
fn obstacle_size_matches_score() {
    assert_eq!(Obstacle::new(80, 0).size, 20);
    assert_eq!(Obstacle::new(80, 1).size, 19);
    assert_eq!(Obstacle::new(80, 17).size, 3);
    assert_eq!(Obstacle::new(80, 18).size, 2);
    assert_eq!(Obstacle::new(80, 19).size, 2);
    assert_eq!(Obstacle::new(80, 1000).size, 2);
    assert_eq!(Obstacle::new(80, i32::MAX).size, 2);
}

#[test]
fn obstacle_gap_is_generated_in_range() {
    let mut seen_low: i32 = i32::MAX;
    let mut seen_high: i32 = i32::MIN;
    for _ in 0..200 {
        let o: Obstacle = Obstacle::new(80, 0);
        assert!(10 <= o.gap_y && o.gap_y < 40);
        seen_low = seen_low.min(o.gap_y);
        seen_high = seen_high.max(o.gap_y);
    }
    // A generator that ignored its range and always handed one value back
    // would keep these equal; 200 uniform draws from [10, 40) do not.
    assert_ne!(seen_low, seen_high);
}

#[test]
fn gravity_without_flap_is_monotone() {
    let mut p: Player = Player::new(5, 25);
    let mut prev_y: i32 = p.y;
    let mut prev_v: i32 = p.velocity_tenths;
    for _ in 0..30 {
        p.gravity_and_move();
        assert!(p.y >= prev_y);
        assert!(p.velocity_tenths >= prev_v);
        assert!(p.velocity_tenths <= 20);
        prev_y = p.y;
        prev_v = p.velocity_tenths;
    }
    assert_eq!(p.velocity_tenths, 20);
}

#[test]
fn gravity_advances_x_by_exactly_one() {
    let mut p: Player = Player::new(5, 25);
    for i in 0..10 {
        p.gravity_and_move();
        assert_eq!(p.x, 6 + i);
    }
}

#[test]
fn flap_sets_velocity_and_is_idempotent() {
    let mut p: Player = Player::new(5, 25);
    p.gravity_and_move();
    p.gravity_and_move();
    assert_eq!(p.velocity_tenths, 4);
    p.flap();
    assert_eq!(p.velocity_tenths, -20);
    p.flap();
    assert_eq!(p.velocity_tenths, -20);
}

#[test]
fn collision_is_exact() {
    // Gap spans [24, 26]: gap_y 25, size 3, truncated half-size 1.
    let o = Obstacle { x: 6, gap_y: 25, size: 3 };
    let at = |x: i32, y: i32| Player { x, y, last_y: y, velocity_tenths: 0 };
    assert!(o.hit_obstacle(&at(5, 23)));
    assert!(o.hit_obstacle(&at(5, 0)));
    assert!(o.hit_obstacle(&at(5, 27)));
    assert!(o.hit_obstacle(&at(5, 49)));
    assert!(!o.hit_obstacle(&at(5, 24)));
    assert!(!o.hit_obstacle(&at(5, 25)));
    assert!(!o.hit_obstacle(&at(5, 26)));
    // Every other column misses, even with the row far outside the gap.
    assert!(!o.hit_obstacle(&at(4, 0)));
    assert!(!o.hit_obstacle(&at(6, 0)));
    assert!(!o.hit_obstacle(&at(7, 0)));
}

#[test]
fn cloud_wraps_to_right_edge() {
    // Speed 1.0 cells per update is 4 quarters.
    let mut c: Cloud = Cloud::new(-10, 5, 4, Colour::CloudShade(225));
    for i in 0..10 {
        c.update();
        assert_eq!(c.x, -11 - i);
    }
    // The wrap condition x + 20 < 0 is first met now, and the cloud is
    // teleported to the right edge with the backing position resynchronised.
    c.update();
    assert_eq!(c.x, 80);
    assert_eq!(c.real_x_quarters, 4 * 80);
}

#[test]
fn slow_cloud_crawls_by_quarters() {
    // Speed 0.25: the column is the floor of the backing position, so the
    // first fractional step already drops it a cell, and it stays there
    // until the position crosses the next whole cell four updates later.
    let mut c: Cloud = Cloud::new(-10, 5, 1, Colour::CloudShade(225));
    c.update();
    assert_eq!(c.x, -11);
    c.update();
    c.update();
    c.update();
    assert_eq!(c.x, -11);
    c.update();
    assert_eq!(c.x, -12);
}

#[test]
fn menu_key_p_starts_a_run() {
    let mut s: State = State::new();
    assert_eq!(s.mode, GameMode::Menu);
    let out = s.tick(0, Some(Key::P));
    assert!(!out.quit);
    assert_eq!(s.mode, GameMode::Playing);
    assert_eq!(s.score, 0);
    assert_eq!(s.player.x, 5);
    assert_eq!(s.player.y, 25);
    assert_eq!(s.player.velocity_tenths, 0);
    assert_eq!(s.frame_time, 0);
    assert_eq!(s.obstacle.x, 80);
    assert_eq!(s.obstacle.size, 20);
}

#[test]
fn menu_ignores_other_keys() {
    let mut s: State = State::new();
    let out = s.tick(0, Some(Key::Space));
    assert!(!out.quit);
    assert_eq!(s.mode, GameMode::Menu);
    let out = s.tick(0, None);
    assert!(!out.quit);
    assert_eq!(s.mode, GameMode::Menu);
}

#[test]
fn menu_key_q_requests_quit() {
    let mut s: State = State::new();
    let out = s.tick(0, Some(Key::Q));
    assert!(out.quit);
    assert_eq!(s.mode, GameMode::Menu);
}

#[test]
fn falling_below_bottom_boundary_ends_the_run() {
    let p = Player { x: 5, y: 50, last_y: 50, velocity_tenths: 0 };
    let mut s: State = playing_state(p, Obstacle { x: 80, gap_y: 25, size: 20 });
    s.tick(0, None);
    assert_eq!(s.mode, GameMode::End);
}

#[test]
fn colliding_ends_the_run() {
    let p = Player { x: 5, y: 5, last_y: 5, velocity_tenths: 0 };
    let mut s: State = playing_state(p, Obstacle { x: 6, gap_y: 25, size: 2 });
    s.tick(0, None);
    assert_eq!(s.mode, GameMode::End);
}

#[test]
fn passing_through_the_gap_keeps_playing() {
    let p = Player { x: 5, y: 25, last_y: 25, velocity_tenths: 0 };
    let mut s: State = playing_state(p, Obstacle { x: 6, gap_y: 25, size: 2 });
    s.tick(0, None);
    assert_eq!(s.mode, GameMode::Playing);
}

#[test]
fn quit_key_during_play_ends_the_run() {
    let mut s: State = State::new();
    s.tick(0, Some(Key::P));
    let out = s.tick(0, Some(Key::Q));
    assert!(!out.quit);
    assert_eq!(s.mode, GameMode::End);
}

#[test]
fn passing_an_obstacle_scores_and_spawns_the_next() {
    let p = Player { x: 81, y: 25, last_y: 25, velocity_tenths: 0 };
    let mut s: State = playing_state(p, Obstacle { x: 80, gap_y: 25, size: 20 });
    s.tick(0, None);
    assert_eq!(s.score, 1);
    assert_eq!(s.obstacle.x, 81 + 80);
    assert_eq!(s.obstacle.size, 19);
    assert!(10 <= s.obstacle.gap_y && s.obstacle.gap_y < 40);
    assert_eq!(s.mode, GameMode::Playing);
}

#[test]
fn accumulator_resets_to_zero_after_one_step() {
    let mut s: State = State::new();
    s.tick(0, Some(Key::P));
    // First 25 ms tick: below the 40 ms threshold, no physics step.
    s.tick(25, None);
    assert_eq!(s.frame_time, 25);
    assert_eq!(s.player.x, 5);
    // Second 25 ms tick: 50 ms accumulated, exactly one physics step runs
    // and the accumulator resets to zero, not to the 10 ms overshoot.
    s.tick(25, None);
    assert_eq!(s.frame_time, 0);
    assert_eq!(s.player.x, 6);
    assert_eq!(s.player.velocity_tenths, 2);
    assert_eq!(s.player.y, 25);
}

#[test]
fn flap_applies_after_the_physics_step() {
    let mut s: State = State::new();
    s.tick(0, Some(Key::P));
    s.tick(50, Some(Key::Space));
    assert_eq!(s.player.velocity_tenths, -20);
    assert_eq!(s.player.x, 6);
}

#[test]
fn sub_cell_velocity_moves_nothing_for_several_steps() {
    let mut p: Player = Player::new(5, 25);
    p.flap();
    // From -2.0, gravity re-accumulates by 0.2 per step; the truncated
    // velocity stays 0 from -0.8 on, so the rise stops well before level.
    p.gravity_and_move();
    assert_eq!(p.y, 24);
    p.gravity_and_move();
    assert_eq!(p.y, 23);
    for _ in 0..3 {
        p.gravity_and_move();
    }
    assert_eq!(p.y, 20);
    // From -0.8 on the truncation is 0: the player hangs level.
    p.gravity_and_move();
    assert_eq!(p.velocity_tenths, -8);
    assert_eq!(p.y, 20);
    p.gravity_and_move();
    assert_eq!(p.y, 20);
}

#[test]
fn top_boundary_clamps_the_rise() {
    let p = Player { x: 5, y: 1, last_y: 1, velocity_tenths: -20 };
    let mut s: State = playing_state(p, Obstacle { x: 80, gap_y: 25, size: 20 });
    s.tick(50, None);
    assert_eq!(s.player.y, 0);
    s.tick(50, None);
    assert_eq!(s.player.y, 0);
}

#[test]
fn menu_frame_draws() {
    let mut s: State = State::new();
    let out = s.tick(16, None);
    assert_eq!(out.draws.len(), 4);
    assert_eq!(out.draws[0], DrawCommand::Clear { colour: Colour::Background });
    assert_eq!(
        out.draws[1],
        DrawCommand::TextCentered {
            y: 5,
            fg: Colour::PlayerBody,
            bg: Colour::Background,
            text: Text::Welcome,
        }
    );
    assert_eq!(
        out.draws[3],
        DrawCommand::TextCentered {
            y: 9,
            fg: Colour::PlayerBody,
            bg: Colour::Background,
            text: Text::QuitOption,
        }
    );
}

#[test]
fn end_frame_shows_the_earned_score() {
    let p = Player { x: 81, y: 25, last_y: 25, velocity_tenths: 0 };
    let mut s: State = playing_state(p, Obstacle { x: 80, gap_y: 25, size: 20 });
    s.tick(0, None);
    assert_eq!(s.score, 1);
    s.mode = GameMode::End;
    let out = s.tick(0, None);
    assert_eq!(out.draws.len(), 5);
    assert_eq!(
        out.draws[2],
        DrawCommand::TextCentered {
            y: 6,
            fg: Colour::PlayerBody,
            bg: Colour::Background,
            text: Text::Points(1),
        }
    );
}

#[test]
fn playing_frame_draws_in_order() {
    let mut s: State = State::new();
    s.tick(0, Some(Key::P));
    let out = s.tick(0, None);
    // Clear, 80 ground cells, 4 clouds of 13 cells, 3 player cells, two
    // text lines, then the obstacle: size 20 leaves a 20-row gap, so it
    // fills (gap_y - 10) + (49 - (gap_y + 10)) = 29 of the 49 rows.
    assert_eq!(out.draws.len(), 1 + 80 + 52 + 3 + 2 + 29);
    assert_eq!(out.draws[0], DrawCommand::Clear { colour: Colour::Background });
    assert_eq!(
        out.draws[1],
        DrawCommand::Cell {
            x: 0,
            y: 49,
            fg: Colour::GrassFg,
            bg: Colour::GrassBg,
            glyph: '#',
        }
    );
    assert_eq!(
        out.draws[80],
        DrawCommand::Cell {
            x: 79,
            y: 49,
            fg: Colour::GrassFg,
            bg: Colour::GrassBg,
            glyph: '#',
        }
    );
    // The player renders level at columns 0..2 of its row.
    assert_eq!(
        out.draws[133],
        DrawCommand::Cell {
            x: 0,
            y: 25,
            fg: Colour::PlayerBody,
            bg: Colour::Background,
            glyph: '\\',
        }
    );
    assert_eq!(
        out.draws[135],
        DrawCommand::Cell {
            x: 2,
            y: 25,
            fg: Colour::PlayerBody,
            bg: Colour::Background,
            glyph: '/',
        }
    );
    assert_eq!(
        out.draws[136],
        DrawCommand::TextLeft {
            x: 0,
            y: 0,
            fg: Colour::PlayerBody,
            bg: Colour::Background,
            text: Text::FlapHint,
        }
    );
    assert_eq!(
        out.draws[137],
        DrawCommand::TextLeft {
            x: 0,
            y: 1,
            fg: Colour::PlayerBody,
            bg: Colour::Background,
            text: Text::Score(0),
        }
    );
    // The obstacle column scrolls with the player's world position; its
    // first cell is the top of the surface unless the gap starts there.
    let gap_y: i32 = s.obstacle.gap_y;
    let first_obstacle_y: i32 = if gap_y > 10 { 0 } else { gap_y + 10 };
    assert_eq!(
        out.draws[138],
        DrawCommand::Cell {
            x: 75,
            y: first_obstacle_y,
            fg: Colour::Red,
            bg: Colour::Background,
            glyph: '#',
        }
    );
}

#[test]
fn player_renders_mirrored_when_ascending() {
    let p = Player { x: 5, y: 10, last_y: 11, velocity_tenths: -20 };
    let cells: Vec<DrawCommand> = p.render();
    assert_eq!(
        cells[0],
        DrawCommand::Cell {
            x: 2,
            y: 10,
            fg: Colour::PlayerBody,
            bg: Colour::Background,
            glyph: '\\',
        }
    );
    assert_eq!(
        cells[2],
        DrawCommand::Cell {
            x: 0,
            y: 10,
            fg: Colour::PlayerBody,
            bg: Colour::Background,
            glyph: '/',
        }
    );
}

#[test]
fn cloud_renders_its_outline() {
    let c: Cloud = Cloud::new(-10, 5, 4, Colour::CloudShade(225));
    let cells: Vec<DrawCommand> = c.render();
    assert_eq!(cells.len(), 13);
    assert_eq!(
        cells[0],
        DrawCommand::Cell {
            x: -7,
            y: 5,
            fg: Colour::CloudShade(225),
            bg: Colour::Background,
            glyph: '_',
        }
    );
    assert_eq!(
        cells[12],
        DrawCommand::Cell {
            x: -3,
            y: 7,
            fg: Colour::CloudShade(225),
            bg: Colour::Background,
            glyph: ')',
        }
    );
}

#[test]
fn dead_key_p_restarts() {
    let mut s: State = State::new();
    s.tick(0, Some(Key::P));
    s.tick(0, Some(Key::Q));
    assert_eq!(s.mode, GameMode::End);
    let out = s.tick(0, Some(Key::P));
    assert!(!out.quit);
    assert_eq!(s.mode, GameMode::Playing);
    assert_eq!(s.score, 0);
    assert_eq!(s.player.x, 5);
    assert_eq!(s.player.y, 25);
}

#[test]
fn dead_key_q_requests_quit() {
    let mut s: State = State::new();
    s.tick(0, Some(Key::P));
    s.tick(0, Some(Key::Q));
    let out = s.tick(0, Some(Key::Q));
    assert!(out.quit);
}
