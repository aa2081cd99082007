use pong_core::driver;
use pong_core::game::PongGame;
use pong_core::input::{InputEvent, NamedKey};
use pong_core::latch::EventLatch;
use pong_core::render::DrawCmd;

fn game_with(
    ball_row: usize,
    ball_col: usize,
    ball_dx: isize,
    ball_dy: isize,
) -> PongGame {
    let mut g = PongGame::new();
    g.ball_row = ball_row;
    g.ball_col = ball_col;
    g.ball_dx = ball_dx;
    g.ball_dy = ball_dy;
    g
}

#[test]
fn tick_latch_is_idempotent() {
    let mut l = EventLatch::new();
    l.publish_tick();
    l.publish_tick();
    assert!(l.consume_tick());
    assert!(!l.consume_tick());
}

#[test]
fn tick_latch_starts_empty() {
    let mut l = EventLatch::new();
    assert!(!l.consume_tick());
}

#[test]
fn key_latch_latest_write_wins() {
    let mut l = EventLatch::new();
    l.publish_key(InputEvent::Character('a'));
    l.publish_key(InputEvent::Character('b'));
    assert_eq!(l.consume_key(), Some(InputEvent::Character('b')));
    assert_eq!(l.consume_key(), None);
}

#[test]
fn latch_slots_are_independent() {
    let mut l = EventLatch::new();
    l.publish_tick();
    l.publish_key(InputEvent::Named(NamedKey::Up));
    assert_eq!(l.consume_key(), Some(InputEvent::Named(NamedKey::Up)));
    assert!(l.consume_tick());
    assert!(!l.consume_tick());
    assert_eq!(l.consume_key(), None);
}

#[test]
fn end_to_end_first_advance() {
    let mut g = PongGame::new();
    assert_eq!(g.ball_row, 12);
    assert_eq!(g.ball_col, 40);
    assert_eq!(g.ball_dx, 1);
    assert_eq!(g.ball_dy, 1);
    assert_eq!(g.paddle_left_row, 10);
    assert_eq!(g.paddle_right_row, 10);
    g.update_ball();
    assert_eq!(g.ball_row, 13);
    assert_eq!(g.ball_col, 41);
    assert_eq!(g.ball_dx, 1);
    assert_eq!(g.ball_dy, 1);
    assert_eq!(g.score_left, 0);
    assert_eq!(g.score_right, 0);
}

#[test]
fn ball_bounces_off_top_wall() {
    let mut g = game_with(1, 40, 1, -1);
    g.update_ball();
    assert_eq!(g.ball_row, 0);
    assert_eq!(g.ball_dy, 1);
    g.update_ball();
    assert_eq!(g.ball_row, 1);
    assert_eq!(g.ball_dy, 1);
}

#[test]
fn ball_bounces_off_bottom_wall() {
    let mut g = game_with(23, 40, 1, 1);
    g.update_ball();
    assert_eq!(g.ball_row, 24);
    assert_eq!(g.ball_dy, -1);
}

#[test]
fn right_goal_scores_left_and_resets() {
    let mut g = game_with(5, 78, 1, 1);
    g.update_ball();
    assert_eq!(g.score_left, 1);
    assert_eq!(g.score_right, 0);
    assert_eq!(g.ball_row, 12);
    assert_eq!(g.ball_col, 40);
    assert_eq!(g.ball_dx, -1);
}

#[test]
fn left_goal_scores_right_and_resets() {
    let mut g = game_with(5, 1, -1, 1);
    // Ball at column 1 moving left, away from the left paddle's rows.
    g.paddle_left_row = 10;
    g.update_ball();
    assert_eq!(g.score_right, 1);
    assert_eq!(g.score_left, 0);
    assert_eq!(g.ball_row, 12);
    assert_eq!(g.ball_col, 40);
    assert_eq!(g.ball_dx, 1);
}

#[test]
fn corner_ball_bounces_and_scores_in_one_tick() {
    // Arrives at the top-left corner: it bounces vertically and still scores.
    let mut g = game_with(1, 1, -1, -1);
    g.update_ball();
    assert_eq!(g.score_right, 1);
    assert_eq!(g.ball_row, 12);
    assert_eq!(g.ball_col, 40);
    assert_eq!(g.ball_dx, 1);
    assert_eq!(g.ball_dy, 1);
}

#[test]
fn left_paddle_deflects_ball() {
    let mut g = game_with(11, 2, -1, 0);
    g.paddle_left_row = 10;
    g.update_ball();
    assert_eq!(g.ball_col, 1);
    assert_eq!(g.ball_dx, 1);
    assert_eq!(g.score_right, 0);
}

#[test]
fn right_paddle_deflects_ball() {
    let mut g = game_with(11, 77, 1, 0);
    g.paddle_right_row = 10;
    g.update_ball();
    assert_eq!(g.ball_col, 78);
    assert_eq!(g.ball_dx, -1);
    assert_eq!(g.score_left, 0);
}

#[test]
fn ball_misses_paddle_and_keeps_direction() {
    let mut g = game_with(2, 2, -1, 0);
    g.paddle_left_row = 10;
    g.update_ball();
    assert_eq!(g.ball_col, 1);
    assert_eq!(g.ball_dx, -1);
}

#[test]
fn reset_ball_forces_level_ball_downward() {
    let mut g = game_with(7, 33, 1, 0);
    g.reset_ball();
    assert_eq!(g.ball_row, 12);
    assert_eq!(g.ball_col, 40);
    assert_eq!(g.ball_dx, -1);
    assert_eq!(g.ball_dy, 1);
}

#[test]
fn reset_ball_keeps_nonzero_vertical_velocity() {
    let mut g = game_with(7, 33, -1, -1);
    g.reset_ball();
    assert_eq!(g.ball_dx, 1);
    assert_eq!(g.ball_dy, -1);
}

#[test]
fn paddle_clamp_at_top() {
    let mut g = PongGame::new();
    g.paddle_right_row = 0;
    g.key(InputEvent::Named(NamedKey::Up));
    assert_eq!(g.paddle_right_row, 0);
}

#[test]
fn paddle_clamp_at_bottom() {
    let mut g = PongGame::new();
    g.paddle_right_row = 20;
    g.key(InputEvent::Named(NamedKey::Down));
    assert_eq!(g.paddle_right_row, 20);
    g.paddle_left_row = 20;
    g.key(InputEvent::Character('s'));
    assert_eq!(g.paddle_left_row, 20);
}

#[test]
fn arrow_keys_move_right_paddle() {
    let mut g = PongGame::new();
    g.key(InputEvent::Named(NamedKey::Up));
    assert_eq!(g.paddle_right_row, 9);
    g.key(InputEvent::Named(NamedKey::Down));
    g.key(InputEvent::Named(NamedKey::Down));
    assert_eq!(g.paddle_right_row, 11);
    assert_eq!(g.paddle_left_row, 10);
}

#[test]
fn character_keys_move_left_paddle() {
    let mut g = PongGame::new();
    g.key(InputEvent::Character('w'));
    assert_eq!(g.paddle_left_row, 9);
    g.key(InputEvent::Character('s'));
    g.key(InputEvent::Character('s'));
    assert_eq!(g.paddle_left_row, 11);
    assert_eq!(g.paddle_right_row, 10);
}

#[test]
fn unrecognized_events_are_ignored() {
    let mut g = PongGame::new();
    let before = g;
    g.key(InputEvent::Character('x'));
    g.key(InputEvent::Named(NamedKey::Other));
    assert_eq!(g, before);
}

#[test]
fn render_of_initial_state() {
    let g = PongGame::new();
    let cmds = g.render();
    let mut expected = vec![DrawCmd::Clear];
    for i in 0..4usize {
        expected.push(DrawCmd::Glyph { ch: '|', col: 0, row: 10 + i });
    }
    for i in 0..4usize {
        expected.push(DrawCmd::Glyph { ch: '|', col: 79, row: 10 + i });
    }
    expected.push(DrawCmd::Glyph { ch: 'O', col: 40, row: 12 });
    expected.push(DrawCmd::Number { value: 0, col: 30, row: 0 });
    expected.push(DrawCmd::Glyph { ch: ':', col: 32, row: 0 });
    expected.push(DrawCmd::Number { value: 0, col: 34, row: 0 });
    assert_eq!(cmds, expected);
}

#[test]
fn render_shows_scores() {
    let mut g = game_with(5, 78, 1, 1);
    g.update_ball();
    let cmds = g.render();
    assert!(cmds.contains(&DrawCmd::Number { value: 1, col: 30, row: 0 }));
    assert!(cmds.contains(&DrawCmd::Number { value: 0, col: 34, row: 0 }));
}

#[test]
fn game_tick_advances_and_redraws() {
    let mut g = PongGame::new();
    let cmds = g.tick();
    assert_eq!(g.ball_row, 13);
    assert_eq!(g.ball_col, 41);
    assert!(cmds.contains(&DrawCmd::Glyph { ch: 'O', col: 41, row: 13 }));
    assert_eq!(cmds, g.render());
}

#[test]
fn cpu_loop_idle_does_nothing() {
    let mut g = PongGame::new();
    let mut l = EventLatch::new();
    let before = g;
    let cmds = driver::cpu_loop(&mut g, &mut l);
    assert_eq!(cmds, None);
    assert_eq!(g, before);
}

#[test]
fn cpu_loop_consumes_tick_and_redraws() {
    let mut g = PongGame::new();
    let mut l = EventLatch::new();
    driver::tick(&mut l);
    let cmds = driver::cpu_loop(&mut g, &mut l);
    assert_eq!(g.ball_row, 13);
    assert_eq!(g.ball_col, 41);
    let cmds = cmds.expect("a tick must produce a redraw");
    assert_eq!(cmds, g.render());
    assert_eq!(driver::cpu_loop(&mut g, &mut l), None);
}

#[test]
fn cpu_loop_applies_key_without_tick() {
    let mut g = PongGame::new();
    let mut l = EventLatch::new();
    driver::key(&mut l, InputEvent::Character('w'));
    let cmds = driver::cpu_loop(&mut g, &mut l);
    assert_eq!(cmds, None);
    assert_eq!(g.paddle_left_row, 9);
    assert_eq!(g.ball_row, 12);
}

#[test]
fn cpu_loop_applies_key_before_rendering_tick() {
    let mut g = PongGame::new();
    let mut l = EventLatch::new();
    driver::tick(&mut l);
    driver::key(&mut l, InputEvent::Named(NamedKey::Up));
    let cmds = driver::cpu_loop(&mut g, &mut l).expect("a tick must produce a redraw");
    assert_eq!(g.paddle_right_row, 9);
    // The redraw already shows the moved paddle.
    assert!(cmds.contains(&DrawCmd::Glyph { ch: '|', col: 79, row: 9 }));
}

#[test]
fn is_well_formed_checks_the_invariant() {
    let g = PongGame::new();
    assert!(g.is_well_formed());
    let mut bad = PongGame::new();
    bad.ball_col = 0;
    assert!(!bad.is_well_formed());
    let mut bad_paddle = PongGame::new();
    bad_paddle.paddle_left_row = 21;
    assert!(!bad_paddle.is_well_formed());
}
