//! Ball motion: integration, wall reflection, goal reset and scoring.

use pong::ball::{ball_movement, Ball};
use pong::paddle::MoveCommand;
use pong::sim::{tick, SimState};

fn ball_at(x: i64, y: i64, vx: i64, vy: i64) -> Ball {
    let mut b = Ball::new();
    b.x = x;
    b.y = y;
    b.vx = vx;
    b.vy = vy;
    b
}

#[test]
fn integration_moves_by_velocity() {
    let mut b = ball_at(1_000, 2_000, 5_000, -3_000);
    let mut s1: usize = 0;
    let mut s2: usize = 0;
    ball_movement(&mut b, &mut s1, &mut s2);
    assert_eq!(b.x, 6_000);
    assert_eq!(b.y, -1_000);
    assert_eq!(b.vx, 5_000);
    assert_eq!(b.vy, -3_000);
    assert_eq!(s1, 0);
    assert_eq!(s2, 0);
}

#[test]
fn top_wall_reflects_and_advances_once_more() {
    let mut b = ball_at(0, 344_000, 5_000, 2_000);
    let mut s1: usize = 0;
    let mut s2: usize = 0;
    ball_movement(&mut b, &mut s1, &mut s2);
    // integration reaches (5_000, 346_000), then the wall flips vy and
    // advances one further step of the new velocity
    assert_eq!(b.vy, -2_000);
    assert_eq!(b.vx, 5_000);
    assert_eq!(b.y, 344_000);
    assert_eq!(b.x, 10_000);
    assert_eq!(s1, 0);
    assert_eq!(s2, 0);
}

#[test]
fn bottom_wall_reflects_and_advances_once_more() {
    let mut b = ball_at(0, -344_000, -5_000, -2_000);
    let mut s1: usize = 0;
    let mut s2: usize = 0;
    ball_movement(&mut b, &mut s1, &mut s2);
    assert_eq!(b.vy, 2_000);
    assert_eq!(b.vx, -5_000);
    assert_eq!(b.y, -344_000);
    assert_eq!(b.x, -10_000);
}

#[test]
fn right_goal_resets_and_scores_left_player() {
    let mut b = ball_at(898_000, 120_000, 7_000, 1_000);
    b.speedup = 21_500;
    let mut s1: usize = 3;
    let mut s2: usize = 5;
    ball_movement(&mut b, &mut s1, &mut s2);
    assert_eq!(b.x, 0);
    assert_eq!(b.y, 0);
    assert_eq!(b.vx, 5_000);
    assert_eq!(b.vy, 0);
    assert_eq!(b.speedup, 5_000);
    assert_eq!(s1, 4);
    assert_eq!(s2, 5);
}

#[test]
fn left_goal_resets_and_scores_right_player() {
    let mut b = ball_at(-898_000, -50_000, -7_000, 1_000);
    b.speedup = 12_000;
    let mut s1: usize = 3;
    let mut s2: usize = 5;
    ball_movement(&mut b, &mut s1, &mut s2);
    assert_eq!(b.x, 0);
    assert_eq!(b.y, 0);
    assert_eq!(b.vx, -5_000);
    assert_eq!(b.vy, 0);
    assert_eq!(b.speedup, 5_000);
    assert_eq!(s1, 3);
    assert_eq!(s2, 6);
}

#[test]
fn inactive_ball_integrates_but_ignores_boundaries() {
    let mut b = ball_at(898_000, 344_000, 7_000, 2_000);
    b.active = false;
    let mut s1: usize = 0;
    let mut s2: usize = 0;
    ball_movement(&mut b, &mut s1, &mut s2);
    assert_eq!(b.x, 905_000);
    assert_eq!(b.y, 346_000);
    assert_eq!(b.vx, 7_000);
    assert_eq!(b.vy, 2_000);
    assert_eq!(s1, 0);
    assert_eq!(s2, 0);
}

#[test]
fn straight_rally_scores_after_180_ticks() {
    // ball from the centre at (5, 0) world units per tick, no
    // collisions on the way: the 180th tick reaches the right goal
    // line exactly, the left player scores, and the ball relaunches
    // rightward
    let mut b = Ball::new();
    let mut s1: usize = 0;
    let mut s2: usize = 0;
    for i in 1..180 {
        ball_movement(&mut b, &mut s1, &mut s2);
        assert_eq!(b.x, 5_000 * i);
        assert_eq!(s1, 0);
    }
    ball_movement(&mut b, &mut s1, &mut s2);
    assert_eq!(b.x, 0);
    assert_eq!(b.y, 0);
    assert_eq!(b.vx, 5_000);
    assert_eq!(b.vy, 0);
    assert_eq!(b.speedup, 5_000);
    assert_eq!(s1, 1);
    assert_eq!(s2, 0);
}

#[test]
fn goal_through_full_tick() {
    let mut s = SimState::new();
    s.ball.x = 898_000;
    s.ball.y = 300_000;
    s.ball.vx = 7_000;
    s.ball.speedup = 21_000;
    let hits = tick(&mut s, MoveCommand::Hold);
    assert!(!hits.0);
    assert!(!hits.1);
    assert_eq!(s.ball.x, 0);
    assert_eq!(s.ball.y, 0);
    assert_eq!(s.ball.vx, 5_000);
    assert_eq!(s.ball.vy, 0);
    assert_eq!(s.ball.speedup, 5_000);
    assert_eq!(s.score1, 1);
    assert_eq!(s.score2, 0);
    // the tracker stepped toward the high ball during the same tick
    assert_eq!(s.right.y, 5_000);
    assert_eq!(s.left.y, 0);
}

#[test]
fn collision_through_full_tick() {
    let mut s = SimState::new();
    s.ball.x = 625_000;
    let hits = tick(&mut s, MoveCommand::Hold);
    assert!(!hits.0);
    assert!(hits.1);
    // integration reaches the right paddle's station; the responder
    // rewrites the ball exactly as the centre-hit response does
    assert_eq!(s.ball.speedup, 5_500);
    assert_eq!(s.ball.vx, -8_536);
    assert_eq!(s.ball.vy, -3_835);
    assert_eq!(s.ball.x, 621_464);
    assert_eq!(s.ball.y, -3_835);
    assert_eq!(s.score1, 0);
    assert_eq!(s.score2, 0);
}

#[test]
fn first_tick_from_fresh_state() {
    let mut s = SimState::new();
    let hits = tick(&mut s, MoveCommand::Hold);
    assert!(!hits.0);
    assert!(!hits.1);
    assert_eq!(s.ball.x, 5_000);
    assert_eq!(s.ball.y, 0);
    assert_eq!(s.left.y, 0);
    assert_eq!(s.left.vy, 0);
    assert_eq!(s.right.y, 0);
    assert_eq!(s.score1, 0);
    assert_eq!(s.score2, 0);
}
