//! Collision response: overlap test, bounce angle, deflection profile,
//! speed-up ratchet.

use pong::ball::Ball;
use pong::collision::{ball_collision_system, ball_paddle_collide, bounce_angle_milli};
use pong::geom::rects_overlap;
use pong::paddle::{Paddle, Side};
use pong::trig::{cos_milli, sin_milli};

fn ball_at(x: i64, y: i64, vx: i64, vy: i64) -> Ball {
    let mut b = Ball::new();
    b.x = x;
    b.y = y;
    b.vx = vx;
    b.vy = vy;
    b
}

fn paddle_at(side: Side, x: i64, y: i64) -> Paddle {
    let mut p = Paddle::new(side);
    p.x = x;
    p.y = y;
    p
}

#[test]
fn overlap_cases() {
    // overlapping boxes
    assert!(rects_overlap(0, 0, 10_000, 10_000, 5_000, 5_000, 10_000, 10_000));
    // separated on x
    assert!(!rects_overlap(0, 0, 10_000, 10_000, 20_000, 0, 10_000, 10_000));
    // edges exactly touching: strict comparison, no overlap
    assert!(!rects_overlap(0, 0, 10_000, 10_000, 10_000, 0, 10_000, 10_000));
    // a degenerate zero-extent box overlaps nothing, even well inside
    assert!(!rects_overlap(0, 0, 0, 0, 0, 0, 100_000, 100_000));
    assert!(!rects_overlap(0, 0, 100_000, 100_000, 0, 0, 0, 0));
}

#[test]
fn deflection_profile_values() {
    assert_eq!(sin_milli(0), 0);
    assert_eq!(cos_milli(0), 1000);
    assert_eq!(sin_milli(873), 767);
    assert_eq!(sin_milli(-873), -767);
    assert_eq!(cos_milli(873), 643);
    assert_eq!(cos_milli(-873), 643);
    assert_eq!(sin_milli(1746), 994);
    assert_eq!(cos_milli(1746), -176);
    // beyond half a turn the profile saturates at the clamp
    assert_eq!(sin_milli(100_000), sin_milli(3142));
    assert_eq!(cos_milli(-100_000), cos_milli(3142));
}

#[test]
fn bounce_angle_mapping_values() {
    // centre hit: full offset, maximum deflection
    assert_eq!(bounce_angle_milli(0, 0), 873);
    // upper edge: zero offset
    assert_eq!(bounce_angle_milli(0, 62_500), 0);
    // lower edge: doubled offset
    assert_eq!(bounce_angle_milli(0, -62_500), 1746);
    // offsets are taken relative to the paddle centre
    assert_eq!(bounce_angle_milli(100_000, 100_000), 873);
}

#[test]
fn centre_hit_on_right_paddle() {
    let mut b = ball_at(630_000, 0, 5_000, 0);
    let p = paddle_at(Side::Right, 640_000, 0);
    let hit = ball_paddle_collide(&mut b, &p);
    assert!(hit);
    assert_eq!(b.speedup, 5_500);
    assert_eq!(b.vx, -8_536);
    assert_eq!(b.vy, -3_835);
    assert_eq!(b.x, 621_464);
    assert_eq!(b.y, -3_835);
}

#[test]
fn off_centre_hit_on_left_paddle() {
    let mut b = ball_at(-630_000, 30_000, -5_000, 0);
    let p = paddle_at(Side::Left, -640_000, 0);
    let hit = ball_paddle_collide(&mut b, &p);
    assert!(hit);
    assert_eq!(b.speedup, 5_500);
    assert_eq!(b.vx, 9_944);
    assert_eq!(b.vy, 2_190);
    assert_eq!(b.x, -620_056);
    assert_eq!(b.y, 32_190);
}

#[test]
fn lower_edge_hit_on_left_paddle() {
    let mut b = ball_at(-630_000, -62_500, -5_000, 0);
    let p = paddle_at(Side::Left, -640_000, 0);
    let hit = ball_paddle_collide(&mut b, &p);
    assert!(hit);
    assert_eq!(b.speedup, 5_500);
    assert_eq!(b.vx, 4_032);
    assert_eq!(b.vy, 4_970);
    assert_eq!(b.x, -625_968);
    assert_eq!(b.y, -57_530);
}

#[test]
fn miss_leaves_ball_unchanged() {
    let mut b = ball_at(0, 0, 5_000, 1_000);
    let p = paddle_at(Side::Right, 640_000, 0);
    let hit = ball_paddle_collide(&mut b, &p);
    assert!(!hit);
    assert_eq!(b.x, 0);
    assert_eq!(b.y, 0);
    assert_eq!(b.vx, 5_000);
    assert_eq!(b.vy, 1_000);
    assert_eq!(b.speedup, 5_000);
}

#[test]
fn speed_up_ratchets_then_clamps() {
    let mut speedup: i64 = 5_000;
    for i in 1..=70 {
        let mut b = ball_at(630_000, 0, 5_000, 0);
        b.speedup = speedup;
        let p = paddle_at(Side::Right, 640_000, 0);
        let hit = ball_paddle_collide(&mut b, &p);
        assert!(hit);
        assert!(b.speedup >= speedup);
        if i <= 64 {
            assert_eq!(b.speedup, 5_000 + 500 * i);
        } else {
            // once at the cap, hits leave the scalar exactly unchanged
            assert_eq!(b.speedup, 37_000);
        }
        speedup = b.speedup;
    }
    assert_eq!(speedup, 37_000);
}

#[test]
fn overlapping_both_paddles_resolves_left_then_right() {
    let mut b = ball_at(0, 0, -5_000, 0);
    let left = paddle_at(Side::Left, 0, 30_000);
    let right = paddle_at(Side::Right, 0, 0);
    let hits = ball_collision_system(&mut b, &left, &right);
    assert!(hits.0);
    assert!(hits.1);
    // the right pair resolves against the ball as the left pair left
    // it, and its response wins
    assert_eq!(b.x, -2_646);
    assert_eq!(b.y, 1_215);
    assert_eq!(b.vx, -9_164);
    assert_eq!(b.vy, -3_600);
    assert_eq!(b.speedup, 6_000);
}
