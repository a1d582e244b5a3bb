//! Controllers and score comparison: player guard, opponent tracker
//! dead-bands, session result.

use pong::ball::Ball;
use pong::fixed::div_trunc;
use pong::paddle::{
    ai_movement, paddle_movement, player_control, MoveCommand, Paddle, Side,
};
use pong::score::session_result;

fn ball_at(x: i64, y: i64) -> Ball {
    let mut b = Ball::new();
    b.x = x;
    b.y = y;
    b
}

#[test]
fn player_moves_at_full_speed_inside_bounds() {
    let mut p = Paddle::new(Side::Left);
    player_control(&mut p, MoveCommand::Up);
    assert_eq!(p.vy, 12_000);
    player_control(&mut p, MoveCommand::Down);
    assert_eq!(p.vy, -12_000);
    player_control(&mut p, MoveCommand::Hold);
    assert_eq!(p.vy, 0);
}

#[test]
fn player_blocked_at_upper_travel_limit() {
    let mut p = Paddle::new(Side::Left);
    // within the travel margin of the upper limit: the guard yields
    // zero, not the player speed
    p.y = 265_000;
    player_control(&mut p, MoveCommand::Up);
    assert_eq!(p.vy, 0);
    // one unit below the guard threshold it still moves
    p.y = 264_000;
    player_control(&mut p, MoveCommand::Up);
    assert_eq!(p.vy, 12_000);
}

#[test]
fn player_blocked_at_lower_travel_limit() {
    let mut p = Paddle::new(Side::Left);
    p.y = -265_000;
    player_control(&mut p, MoveCommand::Down);
    assert_eq!(p.vy, 0);
    p.y = -264_000;
    player_control(&mut p, MoveCommand::Down);
    assert_eq!(p.vy, -12_000);
}

#[test]
fn paddle_advances_by_velocity() {
    let mut p = Paddle::new(Side::Left);
    p.y = 10_000;
    p.vy = 12_000;
    paddle_movement(&mut p);
    assert_eq!(p.y, 22_000);
    assert_eq!(p.vy, 12_000);
}

#[test]
fn tracker_dead_band_on_its_side() {
    // ball height within the wide band: hold still
    let mut p = Paddle::new(Side::Right);
    p.y = 100_000;
    ai_movement(&mut p, &ball_at(500_000, 140_000));
    assert_eq!(p.y, 100_000);
    ai_movement(&mut p, &ball_at(500_000, 130_000));
    assert_eq!(p.y, 100_000);
    // just past the band threshold: one fixed step toward the ball
    ai_movement(&mut p, &ball_at(500_000, 151_000));
    assert_eq!(p.y, 105_000);
    ai_movement(&mut p, &ball_at(500_000, 40_000));
    assert_eq!(p.y, 100_000);
    // the velocity field is untouched: the tracker writes positions
    assert_eq!(p.vy, 0);
}

#[test]
fn tracker_recenters_on_far_side() {
    let mut p = Paddle::new(Side::Right);
    p.y = 100_000;
    ai_movement(&mut p, &ball_at(-500_000, 140_000));
    assert_eq!(p.y, 95_000);
    p.y = -15_000;
    ai_movement(&mut p, &ball_at(-500_000, 0));
    assert_eq!(p.y, -10_000);
    // within the narrow centre band: hold still
    ai_movement(&mut p, &ball_at(-500_000, 0));
    assert_eq!(p.y, -10_000);
    p.y = 5_000;
    ai_movement(&mut p, &ball_at(-1_000, 300_000));
    assert_eq!(p.y, 5_000);
}

#[test]
fn session_result_compares_scores() {
    assert_eq!(session_result(3, 1), "Player1 has won!");
    assert_eq!(session_result(2, 2), "Draw");
    assert_eq!(session_result(0, 4), "Player2 has won!");
}

#[test]
fn division_truncates_toward_zero() {
    assert_eq!(div_trunc(7, 2), 3);
    assert_eq!(div_trunc(-7, 2), -3);
    assert_eq!(div_trunc(6, 3), 2);
    assert_eq!(div_trunc(-6, 3), -2);
    assert_eq!(div_trunc(0, 5), 0);
}
