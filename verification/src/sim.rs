//! The simulation state and the canonical tick.
//!
//! The whole playing field is an explicit state value: one ball, the
//! two paddles and the two score counters. A tick runs the fixed
//! deterministic order: controllers produce paddle motion, the player
//! paddle advances, the ball integrates, the collision responder
//! resolves both paddle pairs, and the boundary rules fire with their
//! score accounting. The returned flags are the tick's collision sound
//! cues.

use vstd::prelude::*;
use crate::ball::{
    ball_in_range, ball_wf, boundary_step, integrate_step, Ball, BallModel,
};
use crate::collision::{ball_collision_system, ball_paddle_overlap, pair_step};
use crate::paddle::{
    ai_delta, ai_movement, initial_paddle, paddle_in_range, paddle_movement, paddle_wf,
    player_control, player_velocity, MoveCommand, Paddle, PaddleModel, Side,
};
use crate::{INITIAL_SPEED, BALL_HEIGHT, BALL_WIDTH, MILLI};

verus! {

/// The full simulation state: ball, both paddles, both score counters.
#[derive(Clone, Copy, Debug)]
pub struct SimState {
    pub ball: Ball,
    pub left: Paddle,
    pub right: Paddle,
    pub score1: usize,
    pub score2: usize,
}

/// Mathematical model of a simulation state.
pub ghost struct SimModel {
    pub ball: BallModel,
    pub left: PaddleModel,
    pub right: PaddleModel,
    pub score1: int,
    pub score2: int,
}

impl View for SimState {
    type V = SimModel;

    open spec fn view(&self) -> SimModel {
        SimModel {
            ball: self.ball@,
            left: self.left@,
            right: self.right@,
            score1: self.score1 as int,
            score2: self.score2 as int,
        }
    }
}

/// Well-formed simulation state: each piece well-formed, the paddles on
/// their own sides.
pub open spec fn sim_wf(s: SimModel) -> bool {
    &&& ball_wf(s.ball)
    &&& paddle_wf(s.left)
    &&& paddle_wf(s.right)
    &&& s.left.side == Side::Left
    &&& s.right.side == Side::Right
}

/// Every position within the generous stepping bound.
pub open spec fn sim_in_range(s: SimModel) -> bool {
    &&& ball_in_range(s.ball)
    &&& paddle_in_range(s.left)
    &&& paddle_in_range(s.right)
}

/// The state a fresh simulation starts from: ball at the centre moving
/// rightward, paddles at their stations, scores at zero.
pub open spec fn initial_sim() -> SimModel {
    SimModel {
        ball: (BallModel {
            x: 0,
            y: 0,
            vx: INITIAL_SPEED as int,
            vy: 0,
            speedup: INITIAL_SPEED as int,
            active: true,
            width: BALL_WIDTH as int,
            height: BALL_HEIGHT as int,
            scale_x: MILLI as int,
            scale_y: MILLI as int,
        }),
        left: initial_paddle(Side::Left),
        right: initial_paddle(Side::Right),
        score1: 0,
        score2: 0,
    }
}

/// One tick of the whole simulation, as a function of the state and the
/// player's held command. The three results are the post-tick state and
/// the two collision sound cues (left pair, right pair).
pub open spec fn tick_spec(s: SimModel, cmd: MoveCommand) -> (SimModel, bool, bool) {
    let left_set = PaddleModel { vy: player_velocity(s.left.y, cmd), ..s.left };
    let right_moved = PaddleModel {
        y: s.right.y + ai_delta(s.right.y, s.ball.x, s.ball.y),
        ..s.right
    };
    let left_moved = PaddleModel { y: left_set.y + left_set.vy, ..left_set };
    let ball_int = integrate_step(s.ball);
    let hit_left = ball_paddle_overlap(ball_int, left_moved);
    let ball_l = pair_step(ball_int, left_moved);
    let hit_right = ball_paddle_overlap(ball_l, right_moved);
    let ball_r = pair_step(ball_l, right_moved);
    let bnd = boundary_step(ball_r);
    (
        SimModel {
            ball: bnd.0,
            left: left_moved,
            right: right_moved,
            score1: s.score1 + bnd.1,
            score2: s.score2 + bnd.2,
        },
        hit_left,
        hit_right,
    )
}

impl SimState {
    /// A fresh simulation, ready for its first tick.
    pub fn new() -> (s: SimState)
        ensures
            s@ == initial_sim(),
            sim_wf(s@),
            sim_in_range(s@),
            s@.score1 == 0,
            s@.score2 == 0,
    {
        SimState {
            ball: Ball::new(),
            left: Paddle::new(Side::Left),
            right: Paddle::new(Side::Right),
            score1: 0,
            score2: 0,
        }
    }
}

/// Advance the simulation by one tick: controllers, paddle advance,
/// ball integration, collision response, boundary rules with score
/// accounting — in that fixed order. Returns the collision sound cues.
pub fn tick(s: &mut SimState, cmd: MoveCommand) -> (hits: (bool, bool))
    requires
        sim_wf(old(s)@),
        sim_in_range(old(s)@),
        old(s)@.score1 < usize::MAX,
        old(s)@.score2 < usize::MAX,
    ensures
        final(s)@ == tick_spec(old(s)@, cmd).0,
        hits.0 == tick_spec(old(s)@, cmd).1,
        hits.1 == tick_spec(old(s)@, cmd).2,
        sim_wf(final(s)@),
{
    player_control(&mut s.left, cmd);
    ai_movement(&mut s.right, &s.ball);
    paddle_movement(&mut s.left);
    crate::ball::ball_integrate(&mut s.ball);
    let hits = ball_collision_system(&mut s.ball, &s.left, &s.right);
    crate::ball::ball_boundary(&mut s.ball, &mut s.score1, &mut s.score2);
    hits
}

} // verus!
