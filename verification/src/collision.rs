//! Paddle collision response.
//!
//! For a ball/paddle pair that overlaps, the responder derives a bounce
//! angle from the impact offset against the paddle centre, ratchets the
//! speed-up scalar, rewrites the ball velocity through the deflection
//! profile toward the direction opposite its current travel, and
//! immediately advances the position once more with the new velocity.
//! The returned flags are the collision sound cues: the caller plays
//! one cue per flag that is set.

use vstd::prelude::*;
use crate::ball::{ball_wf, Ball, BallModel};
use crate::fixed::{div_trunc, lemma_qdiv_mag, qdiv};
use crate::geom::{boxes_overlap, rects_overlap};
use crate::paddle::{paddle_wf, Paddle, PaddleModel};
use crate::trig::{
    cos_milli, cos_milli_spec, lemma_cos_milli_bound, lemma_sin_milli_bound, sin_milli,
    sin_milli_spec,
};
use crate::{
    BALL_PAD, BOUNCE_BASE_SPEED, MAX_BOUNCE_ANGLE, MAX_SPEED_UP, MILLI, PADDLE_HALF_HEIGHT,
    POS_LIMIT, SPEED_UP_CAP, SPEED_UP_STEP, VEL_LIMIT,
};

verus! {

/// Full extent of a box after applying its milli scale factor.
pub open spec fn scaled_extent(size: int, scale: int) -> int {
    qdiv(size * scale, MILLI as int)
}

/// The overlap test of the collision system: the ball's scaled box,
/// padded by one unit on each axis against edge tunnelling, against the
/// paddle's scaled box.
pub open spec fn ball_paddle_overlap(b: BallModel, p: PaddleModel) -> bool {
    boxes_overlap(
        b.x,
        b.y,
        scaled_extent(b.width, b.scale_x) + BALL_PAD,
        scaled_extent(b.height, b.scale_y) + BALL_PAD,
        p.x,
        p.y,
        scaled_extent(p.width, p.scale_x),
        scaled_extent(p.height, p.scale_y),
    )
}

/// Impact offset: distance from the ball centre to the paddle's upper
/// edge (paddle centre plus the nominal half-height).
pub open spec fn relative_intersect(paddle_y: int, ball_y: int) -> int {
    paddle_y + PADDLE_HALF_HEIGHT - ball_y
}

/// Impact offset normalised by the nominal half-height, in milli: a hit
/// at the paddle centre gives 1000; the edges give 0 and 2000. Values
/// outside that range are possible near the corners and are kept.
pub open spec fn normalized_intersect(paddle_y: int, ball_y: int) -> int {
    qdiv(relative_intersect(paddle_y, ball_y) * MILLI, PADDLE_HALF_HEIGHT as int)
}

/// Bounce angle in milliradians: the normalised offset scaled by the
/// maximum deflection angle.
pub open spec fn bounce_angle(paddle_y: int, ball_y: int) -> int {
    qdiv(normalized_intersect(paddle_y, ball_y) * MAX_BOUNCE_ANGLE, MILLI as int)
}

/// Speed-up ratchet: one fixed step per hit, and exactly unchanged once
/// at or above the cap.
pub open spec fn next_speed_up(s: int) -> int {
    if s >= MAX_SPEED_UP {
        s
    } else {
        s + SPEED_UP_STEP
    }
}

/// The ball state after a paddle hit: speed-up ratcheted, velocity
/// rewritten from the deflection profile of the bounce angle — away
/// from the ball's current horizontal direction — and the position
/// advanced once by the new velocity.
pub open spec fn collide_response(b: BallModel, p: PaddleModel) -> BallModel {
    let s = next_speed_up(b.speedup);
    let ang = bounce_angle(p.y, b.y);
    let sn = sin_milli_spec(ang);
    let cs = cos_milli_spec(ang);
    if b.vx <= 0 {
        let vx = BOUNCE_BASE_SPEED + qdiv(s * cs, MILLI as int);
        let vy = qdiv(BOUNCE_BASE_SPEED * sn, MILLI as int);
        BallModel { vx: vx, vy: vy, x: b.x + vx, y: b.y + vy, speedup: s, ..b }
    } else {
        let vx = -BOUNCE_BASE_SPEED + qdiv(-(s * cs), MILLI as int);
        let vy = qdiv(BOUNCE_BASE_SPEED * -sn, MILLI as int);
        BallModel { vx: vx, vy: vy, x: b.x + vx, y: b.y + vy, speedup: s, ..b }
    }
}

/// One ball/paddle pair: the response where the pair overlaps, the
/// unchanged ball where it does not.
pub open spec fn pair_step(b: BallModel, p: PaddleModel) -> BallModel {
    if ball_paddle_overlap(b, p) {
        collide_response(b, p)
    } else {
        b
    }
}

/// The collision system's pass over both paddles, in court order: left
/// first, then right against the ball as the left pair left it.
pub open spec fn collision_pass(b: BallModel, l: PaddleModel, r: PaddleModel) -> BallModel {
    pair_step(pair_step(b, l), r)
}

/// Speed-up monotonicity and clamp: a paddle hit never lowers the
/// speed-up scalar; below the threshold it raises it by exactly the
/// fixed step, and at or above the threshold it leaves it exactly
/// unchanged.
pub proof fn lemma_speed_up_ratchet(b: BallModel, p: PaddleModel)
    ensures
        collide_response(b, p).speedup == next_speed_up(b.speedup),
        collide_response(b, p).speedup >= b.speedup,
        b.speedup < MAX_SPEED_UP ==> collide_response(b, p).speedup == b.speedup
            + SPEED_UP_STEP,
        b.speedup >= MAX_SPEED_UP ==> collide_response(b, p).speedup == b.speedup,
{
}

/// The speed-up scalar after a run of consecutive paddle hits.
pub open spec fn speed_up_after(s: int, n: nat) -> int
    decreases n,
{
    if n == 0 {
        s
    } else {
        next_speed_up(speed_up_after(s, (n - 1) as nat))
    }
}

/// Repeated paddle hits ratchet the speed-up scalar: the run never
/// lowers it, it grows by exactly one fixed step per hit while the run
/// stays at or under the threshold, a run started at or above the
/// threshold changes nothing, and a well-formed value never leaves its
/// ceiling.
pub proof fn lemma_speed_up_sequence(s: int, n: nat)
    ensures
        speed_up_after(s, n) >= s,
        s >= MAX_SPEED_UP ==> speed_up_after(s, n) == s,
        0 <= s <= SPEED_UP_CAP ==> speed_up_after(s, n) <= SPEED_UP_CAP,
        s + SPEED_UP_STEP * n <= MAX_SPEED_UP ==> speed_up_after(s, n) == s + SPEED_UP_STEP
            * n,
    decreases n,
{
    if n > 0 {
        lemma_speed_up_sequence(s, (n - 1) as nat);
    }
}

/// Bounce angle mapping: a hit at the exact paddle centre gives an
/// impact offset of the full nominal half-height, a normalised offset
/// of one (in milli), and the maximum deflection angle; hits at the
/// paddle's upper and lower nominal edges give normalised offsets of
/// zero and two.
pub proof fn lemma_bounce_angle_mapping(paddle_y: int, ball_y: int)
    ensures
        ball_y == paddle_y ==> relative_intersect(paddle_y, ball_y) == PADDLE_HALF_HEIGHT,
        ball_y == paddle_y ==> normalized_intersect(paddle_y, ball_y) == MILLI,
        ball_y == paddle_y ==> bounce_angle(paddle_y, ball_y) == MAX_BOUNCE_ANGLE,
        ball_y == paddle_y + PADDLE_HALF_HEIGHT ==> normalized_intersect(paddle_y, ball_y)
            == 0,
        ball_y == paddle_y - PADDLE_HALF_HEIGHT ==> normalized_intersect(paddle_y, ball_y) == 2
            * MILLI,
{
}

/// The bounce angle in milliradians for a ball centre at `ball_y`
/// against a paddle centre at `paddle_y`.
pub fn bounce_angle_milli(paddle_y: i64, ball_y: i64) -> (r: i64)
    requires
        -POS_LIMIT - 2 * VEL_LIMIT <= paddle_y <= POS_LIMIT + 2 * VEL_LIMIT,
        -POS_LIMIT - 2 * VEL_LIMIT <= ball_y <= POS_LIMIT + 2 * VEL_LIMIT,
    ensures
        r == bounce_angle(paddle_y as int, ball_y as int),
{
    let rel = paddle_y + PADDLE_HALF_HEIGHT - ball_y;
    proof {
        lemma_qdiv_mag(rel * MILLI, 2_200_000_000_000_000, PADDLE_HALF_HEIGHT as int);
    }
    let norm = div_trunc(rel * MILLI, PADDLE_HALF_HEIGHT);
    proof {
        lemma_qdiv_mag(norm * MAX_BOUNCE_ANGLE, 35_200_000_000_000, MILLI as int);
    }
    div_trunc(norm * MAX_BOUNCE_ANGLE, MILLI)
}

/// Resolve one ball/paddle pair. Returns whether the pair overlapped
/// (the collision sound cue).
pub fn ball_paddle_collide(b: &mut Ball, p: &Paddle) -> (hit: bool)
    requires
        ball_wf(old(b)@),
        paddle_wf(p@),
        -POS_LIMIT - 2 * VEL_LIMIT <= old(b)@.x <= POS_LIMIT + 2 * VEL_LIMIT,
        -POS_LIMIT - 2 * VEL_LIMIT <= old(b)@.y <= POS_LIMIT + 2 * VEL_LIMIT,
        -POS_LIMIT - 2 * VEL_LIMIT <= p@.x <= POS_LIMIT + 2 * VEL_LIMIT,
        -POS_LIMIT - 2 * VEL_LIMIT <= p@.y <= POS_LIMIT + 2 * VEL_LIMIT,
    ensures
        hit == ball_paddle_overlap(old(b)@, p@),
        final(b)@ == pair_step(old(b)@, p@),
        ball_wf(final(b)@),
        old(b)@.x - VEL_LIMIT <= final(b)@.x <= old(b)@.x + VEL_LIMIT,
        old(b)@.y - VEL_LIMIT <= final(b)@.y <= old(b)@.y + VEL_LIMIT,
{
    let ghost bwd = old(b)@.width;
    let ghost bsx = old(b)@.scale_x;
    let ghost bht = old(b)@.height;
    let ghost bsy = old(b)@.scale_y;
    let ghost pwd = p@.width;
    let ghost psx = p@.scale_x;
    let ghost pht = p@.height;
    let ghost psy = p@.scale_y;
    proof {
        assert(0 <= bwd * bsx <= 1_000_000_000_000) by (nonlinear_arith)
            requires
                0 <= bwd <= 1_000_000,
                0 <= bsx <= 1_000_000,
        ;
        assert(0 <= bht * bsy <= 1_000_000_000_000) by (nonlinear_arith)
            requires
                0 <= bht <= 1_000_000,
                0 <= bsy <= 1_000_000,
        ;
        assert(0 <= pwd * psx <= 1_000_000_000_000) by (nonlinear_arith)
            requires
                0 <= pwd <= 1_000_000,
                0 <= psx <= 1_000_000,
        ;
        assert(0 <= pht * psy <= 1_000_000_000_000) by (nonlinear_arith)
            requires
                0 <= pht <= 1_000_000,
                0 <= psy <= 1_000_000,
        ;
        lemma_qdiv_mag(bwd * bsx, 1_000_000_000_000, MILLI as int);
        lemma_qdiv_mag(bht * bsy, 1_000_000_000_000, MILLI as int);
        lemma_qdiv_mag(pwd * psx, 1_000_000_000_000, MILLI as int);
        lemma_qdiv_mag(pht * psy, 1_000_000_000_000, MILLI as int);
    }
    let bw = div_trunc(b.width * b.scale_x, MILLI) + BALL_PAD;
    let bh = div_trunc(b.height * b.scale_y, MILLI) + BALL_PAD;
    let pw = div_trunc(p.width * p.scale_x, MILLI);
    let ph = div_trunc(p.height * p.scale_y, MILLI);
    let hit = rects_overlap(b.x, b.y, bw, bh, p.x, p.y, pw, ph);
    if hit {
        let s = if b.speedup >= MAX_SPEED_UP {
            b.speedup
        } else {
            b.speedup + SPEED_UP_STEP
        };
        let ang = bounce_angle_milli(p.y, b.y);
        let sn = sin_milli(ang);
        let cs = cos_milli(ang);
        proof {
            lemma_sin_milli_bound(ang as int);
            lemma_cos_milli_bound(ang as int);
            assert(-225_000_000 <= s * cs <= 225_000_000) by (nonlinear_arith)
                requires
                    0 <= s <= SPEED_UP_CAP,
                    -6000 <= cs <= 6000,
            ;
            lemma_qdiv_mag(s * cs, 225_000_000, MILLI as int);
            lemma_qdiv_mag(-(s * cs), 225_000_000, MILLI as int);
            lemma_qdiv_mag(BOUNCE_BASE_SPEED * (sn as int), 30_000_000, MILLI as int);
            lemma_qdiv_mag(BOUNCE_BASE_SPEED * (-sn as int), 30_000_000, MILLI as int);
        }
        if b.vx <= 0 {
            let vy = div_trunc(BOUNCE_BASE_SPEED * sn, MILLI);
            let vx = BOUNCE_BASE_SPEED + div_trunc(s * cs, MILLI);
            b.vy = vy;
            b.vx = vx;
            b.speedup = s;
            b.y = b.y + vy;
            b.x = b.x + vx;
        } else {
            let vy = div_trunc(BOUNCE_BASE_SPEED * (-sn), MILLI);
            let vx = -BOUNCE_BASE_SPEED + div_trunc(-(s * cs), MILLI);
            b.vy = vy;
            b.vx = vx;
            b.speedup = s;
            b.y = b.y + vy;
            b.x = b.x + vx;
        }
    }
    hit
}

/// The collision system: resolve the ball against both paddles, left
/// pair first. Returns the two collision sound cues.
pub fn ball_collision_system(b: &mut Ball, left: &Paddle, right: &Paddle) -> (hits: (bool, bool))
    requires
        ball_wf(old(b)@),
        paddle_wf(left@),
        paddle_wf(right@),
        -POS_LIMIT - VEL_LIMIT <= old(b)@.x <= POS_LIMIT + VEL_LIMIT,
        -POS_LIMIT - VEL_LIMIT <= old(b)@.y <= POS_LIMIT + VEL_LIMIT,
        -POS_LIMIT - VEL_LIMIT <= left@.x <= POS_LIMIT + VEL_LIMIT,
        -POS_LIMIT - VEL_LIMIT <= left@.y <= POS_LIMIT + VEL_LIMIT,
        -POS_LIMIT - VEL_LIMIT <= right@.x <= POS_LIMIT + VEL_LIMIT,
        -POS_LIMIT - VEL_LIMIT <= right@.y <= POS_LIMIT + VEL_LIMIT,
    ensures
        hits.0 == ball_paddle_overlap(old(b)@, left@),
        hits.1 == ball_paddle_overlap(pair_step(old(b)@, left@), right@),
        final(b)@ == collision_pass(old(b)@, left@, right@),
        ball_wf(final(b)@),
        old(b)@.x - 2 * VEL_LIMIT <= final(b)@.x <= old(b)@.x + 2 * VEL_LIMIT,
        old(b)@.y - 2 * VEL_LIMIT <= final(b)@.y <= old(b)@.y + 2 * VEL_LIMIT,
{
    let hit_left = ball_paddle_collide(b, left);
    let hit_right = ball_paddle_collide(b, right);
    (hit_left, hit_right)
}

} // verus!
