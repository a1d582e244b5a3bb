//! Ball state and the per-tick motion rules.
//!
//! Each tick the ball integrates its position by one velocity step.
//! When its active flag is set, the boundary rules then run: crossing a
//! horizontal goal line scores for the far side and resets the ball to
//! the centre, and crossing a vertical wall reflects the vertical
//! velocity and immediately advances the position once more with the
//! new velocity.

use vstd::prelude::*;
use crate::{
    GOAL_LEFT_X, GOAL_RIGHT_X, INITIAL_SPEED, POS_LIMIT, SCALE_LIMIT, SIZE_LIMIT, SPEED_UP_CAP,
    VEL_LIMIT, WALL_BOTTOM_Y, WALL_TOP_Y, MILLI, BALL_HEIGHT, BALL_WIDTH,
};

verus! {

/// Ball state: centre position, velocity, speed-up scalar, the flag
/// gating the boundary rules, and the nominal extent with its scale.
/// All lengths are milli-units; scales are milli (1000 is unscaled).
#[derive(Clone, Copy, Debug)]
pub struct Ball {
    pub x: i64,
    pub y: i64,
    pub vx: i64,
    pub vy: i64,
    pub speedup: i64,
    pub active: bool,
    pub width: i64,
    pub height: i64,
    pub scale_x: i64,
    pub scale_y: i64,
}

/// Mathematical model of a ball state.
pub ghost struct BallModel {
    pub x: int,
    pub y: int,
    pub vx: int,
    pub vy: int,
    pub speedup: int,
    pub active: bool,
    pub width: int,
    pub height: int,
    pub scale_x: int,
    pub scale_y: int,
}

impl View for Ball {
    type V = BallModel;

    open spec fn view(&self) -> BallModel {
        BallModel {
            x: self.x as int,
            y: self.y as int,
            vx: self.vx as int,
            vy: self.vy as int,
            speedup: self.speedup as int,
            active: self.active,
            width: self.width as int,
            height: self.height as int,
            scale_x: self.scale_x as int,
            scale_y: self.scale_y as int,
        }
    }
}

/// Well-formed ball: velocity, speed-up, extent and scale within the
/// configured bounds. Every rule preserves it.
pub open spec fn ball_wf(b: BallModel) -> bool {
    &&& -VEL_LIMIT <= b.vx <= VEL_LIMIT
    &&& -VEL_LIMIT <= b.vy <= VEL_LIMIT
    &&& 0 <= b.speedup <= SPEED_UP_CAP
    &&& 0 <= b.width <= SIZE_LIMIT
    &&& 0 <= b.height <= SIZE_LIMIT
    &&& 0 <= b.scale_x <= SCALE_LIMIT
    &&& 0 <= b.scale_y <= SCALE_LIMIT
}

/// Position within the generous stepping bound.
pub open spec fn ball_in_range(b: BallModel) -> bool {
    &&& -POS_LIMIT <= b.x <= POS_LIMIT
    &&& -POS_LIMIT <= b.y <= POS_LIMIT
}

/// One explicit Euler step: position advances by the velocity.
pub open spec fn integrate_step(b: BallModel) -> BallModel {
    BallModel { x: b.x + b.vx, y: b.y + b.vy, ..b }
}

/// Ball state relaunched from the centre after a goal, toward the side
/// that was just scored against. `dir` is `1` or `-1`.
pub open spec fn reset_ball(b: BallModel, dir: int) -> BallModel {
    BallModel {
        x: 0,
        y: 0,
        vx: dir * INITIAL_SPEED,
        vy: 0,
        speedup: INITIAL_SPEED as int,
        ..b
    }
}

/// Goal rule on a post-integration state: crossing the right goal line
/// scores for the left player and relaunches the ball rightward;
/// symmetric on the left. The two extra results are the score deltas
/// (left player, right player).
pub open spec fn goal_step(b: BallModel) -> (BallModel, int, int) {
    if b.x >= GOAL_RIGHT_X {
        (reset_ball(b, 1), 1, 0)
    } else if b.x <= GOAL_LEFT_X {
        (reset_ball(b, -1), 0, 1)
    } else {
        (b, 0, 0)
    }
}

/// Wall rule: at or beyond a vertical wall, the vertical velocity flips
/// and the position immediately advances once more with the new
/// velocity (reflect and nudge, one two-part step).
pub open spec fn wall_step(b: BallModel) -> BallModel {
    if b.y <= WALL_BOTTOM_Y {
        BallModel { vy: -b.vy, x: b.x + b.vx, y: b.y + -b.vy, ..b }
    } else if b.y >= WALL_TOP_Y {
        BallModel { vy: -b.vy, x: b.x + b.vx, y: b.y + -b.vy, ..b }
    } else {
        b
    }
}

/// Boundary rules, gated by the active flag: the goal rule, then the
/// wall rule on its outcome.
pub open spec fn boundary_step(b: BallModel) -> (BallModel, int, int) {
    if !b.active {
        (b, 0, 0)
    } else {
        let g = goal_step(b);
        (wall_step(g.0), g.1, g.2)
    }
}

/// The full per-tick motion rule: integrate, then the boundary rules.
pub open spec fn ball_step(b: BallModel) -> (BallModel, int, int) {
    boundary_step(integrate_step(b))
}

impl Ball {
    /// A fresh ball at the centre, launched rightward at the initial
    /// speed, with the boundary rules enabled.
    pub fn new() -> (b: Ball)
        ensures
            b@ == (BallModel {
                x: 0,
                y: 0,
                vx: INITIAL_SPEED as int,
                vy: 0,
                speedup: INITIAL_SPEED as int,
                active: true,
                width: BALL_WIDTH as int,
                height: BALL_HEIGHT as int,
                scale_x: MILLI as int,
                scale_y: MILLI as int,
            }),
            ball_wf(b@),
            ball_in_range(b@),
    {
        Ball {
            x: 0,
            y: 0,
            vx: INITIAL_SPEED,
            vy: 0,
            speedup: INITIAL_SPEED,
            active: true,
            width: BALL_WIDTH,
            height: BALL_HEIGHT,
            scale_x: MILLI,
            scale_y: MILLI,
        }
    }
}

/// Advance the ball position by one velocity step.
pub fn ball_integrate(b: &mut Ball)
    requires
        ball_wf(old(b)@),
        ball_in_range(old(b)@),
    ensures
        final(b)@ == integrate_step(old(b)@),
        ball_wf(final(b)@),
{
    b.x = b.x + b.vx;
    b.y = b.y + b.vy;
}

/// Boundary rules on an already-integrated ball: goal detection with
/// score accounting, then wall reflection. Runs only while the ball's
/// active flag is set.
pub fn ball_boundary(b: &mut Ball, score1: &mut usize, score2: &mut usize)
    requires
        ball_wf(old(b)@),
        -POS_LIMIT - 3 * VEL_LIMIT <= old(b)@.x <= POS_LIMIT + 3 * VEL_LIMIT,
        -POS_LIMIT - 3 * VEL_LIMIT <= old(b)@.y <= POS_LIMIT + 3 * VEL_LIMIT,
        *old(score1) < usize::MAX,
        *old(score2) < usize::MAX,
    ensures
        final(b)@ == boundary_step(old(b)@).0,
        *final(score1) == *old(score1) + boundary_step(old(b)@).1,
        *final(score2) == *old(score2) + boundary_step(old(b)@).2,
        ball_wf(final(b)@),
{
    if b.active {
        if b.x >= GOAL_RIGHT_X {
            b.y = 0;
            b.x = 0;
            b.vy = 0;
            b.vx = INITIAL_SPEED;
            b.speedup = INITIAL_SPEED;
            *score1 = *score1 + 1;
        } else if b.x <= GOAL_LEFT_X {
            b.y = 0;
            b.x = 0;
            b.vy = 0;
            b.vx = -INITIAL_SPEED;
            b.speedup = INITIAL_SPEED;
            *score2 = *score2 + 1;
        }
        if b.y <= WALL_BOTTOM_Y {
            // the wall touches only the vertical velocity: vx is
            // deliberately left unchanged
            b.vy = -b.vy;
            b.y = b.y + b.vy;
            b.x = b.x + b.vx;
        } else if b.y >= WALL_TOP_Y {
            b.vy = -b.vy;
            b.y = b.y + b.vy;
            b.x = b.x + b.vx;
        }
    }
}

/// Wall reflection symmetry: when a moving, active ball's integration
/// step carries it onto or past a wall without reaching a goal line,
/// the tick flips the sign of its vertical velocity, keeps the
/// horizontal velocity, and advances the position by exactly one
/// further step of the new velocity. No score moves.
pub proof fn lemma_wall_reflection(b: BallModel)
    requires
        b.active,
        b.vy != 0,
        GOAL_LEFT_X < b.x + b.vx < GOAL_RIGHT_X,
        b.y + b.vy <= WALL_BOTTOM_Y || b.y + b.vy >= WALL_TOP_Y,
    ensures
        ball_step(b).0.vy == -b.vy,
        ball_step(b).0.vx == b.vx,
        ball_step(b).0.x == (b.x + b.vx) + ball_step(b).0.vx,
        ball_step(b).0.y == (b.y + b.vy) + ball_step(b).0.vy,
        ball_step(b).1 == 0,
        ball_step(b).2 == 0,
{
}

/// Goal reset, right side: when an active ball's integration step
/// carries it onto or past the right goal line, the tick leaves the
/// ball at the centre, relaunched rightward at the initial speed with
/// no vertical velocity and the speed-up back at its initial value;
/// the left player's counter gains exactly one and the other is
/// untouched.
pub proof fn lemma_goal_reset_right(b: BallModel)
    requires
        b.active,
        b.x + b.vx >= GOAL_RIGHT_X,
    ensures
        ball_step(b).0 == (BallModel {
            x: 0,
            y: 0,
            vx: INITIAL_SPEED as int,
            vy: 0,
            speedup: INITIAL_SPEED as int,
            ..b
        }),
        ball_step(b).1 == 1,
        ball_step(b).2 == 0,
{
}

/// Goal reset, left side: the mirror of the right-side reset, with the
/// ball relaunched leftward and the right player's counter gaining one.
pub proof fn lemma_goal_reset_left(b: BallModel)
    requires
        b.active,
        b.x + b.vx <= GOAL_LEFT_X,
    ensures
        ball_step(b).0 == (BallModel {
            x: 0,
            y: 0,
            vx: -INITIAL_SPEED,
            vy: 0,
            speedup: INITIAL_SPEED as int,
            ..b
        }),
        ball_step(b).1 == 0,
        ball_step(b).2 == 1,
{
}

/// The ball motion system: one integration step followed by the
/// boundary rules, with the scores updated on a goal.
pub fn ball_movement(b: &mut Ball, score1: &mut usize, score2: &mut usize)
    requires
        ball_wf(old(b)@),
        ball_in_range(old(b)@),
        *old(score1) < usize::MAX,
        *old(score2) < usize::MAX,
    ensures
        final(b)@ == ball_step(old(b)@).0,
        *final(score1) == *old(score1) + ball_step(old(b)@).1,
        *final(score2) == *old(score2) + ball_step(old(b)@).2,
        ball_wf(final(b)@),
{
    ball_integrate(b);
    ball_boundary(b, score1, score2);
}

} // verus!
