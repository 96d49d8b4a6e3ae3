use pongxelflut::game::{GameState, Vec2};
use pongxelflut::intent::PlayerDir;
use pongxelflut::key::{Key, KeyState};
use pongxelflut::trig::{MAX_REFLECT_ANGLE, PI_ANGLE, TWO_PI_ANGLE};

fn world_800_600() -> GameState {
    GameState::new(Vec2 { x: 800, y: 600 })
}

#[test]
fn new_game_is_centered_and_still() {
    let g = world_800_600();
    assert_eq!(g.paddle_height, 85);
    assert_eq!(g.ball, Vec2 { x: 400, y: 300 });
    assert_eq!(g.ball_angle, 0);
    assert!(!g.ball_is_moving);
    assert_eq!(g.player1, Vec2 { x: 88, y: 257 });
    assert_eq!(g.player2, Vec2 { x: 665, y: 257 });
    assert_eq!(g.player1_dir, PlayerDir::Neutral);
    assert_eq!(g.player2_dir, PlayerDir::Neutral);
}

#[test]
fn stationary_ball_never_moves() {
    let mut g = world_800_600();
    for _ in 0..10 {
        g.update();
        assert_eq!(g.ball, Vec2 { x: 400, y: 300 });
        assert!(!g.ball_is_moving);
    }
}

#[test]
fn ball_ping_pongs_between_centered_paddles() {
    // From the center at angle zero the ball meets player 2's paddle and is
    // reflected back, then player 1's: with both paddles in its row nobody
    // scores.
    let mut g = world_800_600();
    g.handle_press(Key::Space, KeyState::Pressed);
    for _ in 0..100 {
        g.update();
        assert!(g.ball_is_moving);
        assert!(g.ball.x >= 0 && g.ball.x <= 800);
    }
}

#[test]
fn right_exit_scores_for_player_1() {
    // The ball flies rightward above both paddles, so nothing stops it.
    let mut g = world_800_600();
    g.ball = Vec2 { x: 400, y: 100 };
    g.ball_is_moving = true;
    g.ball_angle = 0;
    g.update();
    // Angle zero: the ball must actually travel rightward.
    assert!(g.ball.x > 400);
    assert_eq!(g.ball.y, 100);
    let mut ticks: u32 = 0;
    while g.ball_is_moving && ticks < 100 {
        g.update();
        ticks += 1;
    }
    // The ball left on the right: it stops a third of the width right of
    // center and heads back left.
    assert!(!g.ball_is_moving);
    assert_eq!(g.ball, Vec2 { x: 666, y: 300 });
    assert_eq!(g.ball_angle, PI_ANGLE);
}

#[test]
fn left_exit_scores_for_player_2() {
    // The ball flies leftward above both paddles, so nothing stops it.
    let mut g = world_800_600();
    g.ball = Vec2 { x: 400, y: 100 };
    g.ball_is_moving = true;
    g.ball_angle = PI_ANGLE;
    g.update();
    // Angle pi: leftward travel, no vertical drift.
    assert!(g.ball.x < 400);
    assert_eq!(g.ball.y, 100);
    let mut ticks: u32 = 0;
    while g.ball_is_moving && ticks < 100 {
        g.update();
        ticks += 1;
    }
    assert!(!g.ball_is_moving);
    assert_eq!(g.ball, Vec2 { x: 134, y: 300 });
    assert_eq!(g.ball_angle, 0);
}

#[test]
fn paddles_stay_in_bounds_moving_down() {
    let mut g = world_800_600();
    g.handle_press(Key::S, KeyState::Pressed);
    g.handle_press(Key::Down, KeyState::Pressed);
    for _ in 0..40 {
        g.update();
        assert!(g.player1.y >= 0 && g.player1.y <= 600 - 85);
        assert!(g.player2.y >= 0 && g.player2.y <= 600 - 85);
    }
    // 40 ticks of 17 pixels each overshoot the bottom: both are clamped.
    assert_eq!(g.player1.y, 515);
    assert_eq!(g.player2.y, 515);
}

#[test]
fn paddles_stay_in_bounds_moving_up() {
    let mut g = world_800_600();
    g.handle_press(Key::W, KeyState::Pressed);
    g.handle_press(Key::Up, KeyState::Pressed);
    for _ in 0..40 {
        g.update();
        assert!(g.player1.y >= 0 && g.player1.y <= 600 - 85);
        assert!(g.player2.y >= 0 && g.player2.y <= 600 - 85);
    }
    assert_eq!(g.player1.y, 0);
    assert_eq!(g.player2.y, 0);
}

#[test]
fn both_keys_hold_the_paddle_still() {
    let mut g = world_800_600();
    g.handle_press(Key::W, KeyState::Pressed);
    g.handle_press(Key::S, KeyState::Pressed);
    assert_eq!(g.player1_dir, PlayerDir::Both);
    g.update();
    assert_eq!(g.player1.y, 257);
    g.handle_press(Key::W, KeyState::Released);
    assert_eq!(g.player1_dir, PlayerDir::Down);
    g.update();
    assert_eq!(g.player1.y, 274);
}

#[test]
fn center_impact_reflects_straight() {
    let mut g = world_800_600();
    // Ball resting exactly at the vertical center of player 2's paddle,
    // heading rightward into it.
    g.ball = Vec2 { x: 670, y: 299 };
    g.ball_angle = 0;
    g.update();
    assert_eq!(g.ball_angle, -PI_ANGLE);
    assert_eq!(g.ball, Vec2 { x: 670, y: 299 });
    // Same impact on player 1's side, heading leftward.
    let mut g = world_800_600();
    g.ball = Vec2 { x: 90, y: 299 };
    g.ball_angle = PI_ANGLE;
    g.update();
    assert_eq!(g.ball_angle, 0);
}

#[test]
fn edge_impact_reflects_at_the_fan_edge() {
    let mut g = world_800_600();
    // One pixel below the top of player 2's paddle: offset 41 of 42.
    g.ball = Vec2 { x: 670, y: 258 };
    g.ball_angle = 0;
    g.update();
    assert_eq!(g.ball_angle, 41 * MAX_REFLECT_ANGLE / 42 - PI_ANGLE);
    // One pixel above the bottom of player 1's paddle: the full fan angle.
    let mut g = world_800_600();
    g.ball = Vec2 { x: 90, y: 341 };
    g.ball_angle = PI_ANGLE;
    g.update();
    assert_eq!(g.ball_angle, MAX_REFLECT_ANGLE);
}

#[test]
fn reflection_sweeps_monotonically_across_the_paddle() {
    // Impact rows from the top of player 1's paddle to its bottom: the
    // outgoing angle grows monotonically and stays within the quarter-turn
    // fan.
    let mut last: i32 = i32::MIN;
    for y in 258..342 {
        let mut g = world_800_600();
        g.ball = Vec2 { x: 90, y };
        g.ball_angle = PI_ANGLE;
        g.update();
        assert!(g.ball_angle >= -MAX_REFLECT_ANGLE);
        assert!(g.ball_angle <= MAX_REFLECT_ANGLE);
        assert!(g.ball_angle >= last);
        last = g.ball_angle;
    }
}

#[test]
fn no_collision_when_leaving_the_paddle() {
    let mut g = world_800_600();
    // Inside player 2's paddle but already heading leftward: no reflection.
    g.ball = Vec2 { x: 670, y: 299 };
    g.ball_angle = PI_ANGLE;
    g.update();
    assert_eq!(g.ball_angle, PI_ANGLE);
}

#[test]
fn top_wall_bounces_the_ball() {
    let mut g = world_800_600();
    // Heading up-right at minus a quarter turn's half, close to the top.
    g.ball = Vec2 { x: 400, y: 5 };
    g.ball_angle = -MAX_REFLECT_ANGLE;
    g.ball_is_moving = true;
    g.update();
    assert_eq!(g.ball.y, 0);
    assert_eq!(g.ball_angle, TWO_PI_ANGLE + MAX_REFLECT_ANGLE);
    assert!(g.ball.x > 400);
}

#[test]
fn snapshots_are_the_current_fields() {
    let g = world_800_600();
    assert_eq!(g.ball_snapshot(), Vec2 { x: 400, y: 300 });
    let (p1, p2) = g.paddle_snapshot();
    assert_eq!(p1, Vec2 { x: 88, y: 257 });
    assert_eq!(p2, Vec2 { x: 665, y: 257 });
}
