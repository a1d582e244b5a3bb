//! Paddle state, the player controller and the opponent tracker.
//!
//! The player controller maps a discrete per-tick command to a vertical
//! paddle velocity, guarded so that the projected position stays inside
//! the travel limits; a separate step then advances the paddle by that
//! velocity. The opponent tracker instead writes position increments
//! straight onto the paddle: it steps toward the ball while the ball is
//! on its side of the court, otherwise it recentres, each with its own
//! dead-band, and it is deliberately not bounds-clamped.

use vstd::prelude::*;
use crate::ball::Ball;
use crate::{
    AI_CENTER_BAND, AI_STEP, AI_TRACK_BAND, MILLI, PADDLE_HEIGHT, PADDLE_WIDTH, PADDLE_X,
    PLAYER_SPEED, POS_LIMIT, SCALE_LIMIT, SIZE_LIMIT, TRAVEL_MARGIN, TRAVEL_MAX_Y, TRAVEL_MIN_Y,
    VEL_LIMIT,
};

verus! {

/// Which goal a paddle defends.
#[derive(Clone, Copy, Debug, PartialEq, Eq, Structural)]
pub enum Side {
    Left,
    Right,
}

/// The discrete directional command a controller receives each tick.
#[derive(Clone, Copy, Debug, PartialEq, Eq, Structural)]
pub enum MoveCommand {
    Up,
    Down,
    Hold,
}

/// Paddle state: centre position, vertical velocity, side, and the
/// nominal extent with its scale. All lengths are milli-units; scales
/// are milli (1000 is unscaled).
#[derive(Clone, Copy, Debug)]
pub struct Paddle {
    pub x: i64,
    pub y: i64,
    pub vy: i64,
    pub side: Side,
    pub width: i64,
    pub height: i64,
    pub scale_x: i64,
    pub scale_y: i64,
}

/// Mathematical model of a paddle state.
pub ghost struct PaddleModel {
    pub x: int,
    pub y: int,
    pub vy: int,
    pub side: Side,
    pub width: int,
    pub height: int,
    pub scale_x: int,
    pub scale_y: int,
}

impl View for Paddle {
    type V = PaddleModel;

    open spec fn view(&self) -> PaddleModel {
        PaddleModel {
            x: self.x as int,
            y: self.y as int,
            vy: self.vy as int,
            side: self.side,
            width: self.width as int,
            height: self.height as int,
            scale_x: self.scale_x as int,
            scale_y: self.scale_y as int,
        }
    }
}

/// Well-formed paddle: velocity, extent and scale within the configured
/// bounds. Every rule preserves it.
pub open spec fn paddle_wf(p: PaddleModel) -> bool {
    &&& -VEL_LIMIT <= p.vy <= VEL_LIMIT
    &&& 0 <= p.width <= SIZE_LIMIT
    &&& 0 <= p.height <= SIZE_LIMIT
    &&& 0 <= p.scale_x <= SCALE_LIMIT
    &&& 0 <= p.scale_y <= SCALE_LIMIT
}

/// Position within the generous stepping bound.
pub open spec fn paddle_in_range(p: PaddleModel) -> bool {
    &&& -POS_LIMIT <= p.x <= POS_LIMIT
    &&& -POS_LIMIT <= p.y <= POS_LIMIT
}

/// Vertical velocity the player controller assigns for a command at
/// height `y`: full speed toward the commanded direction, unless the
/// guard finds the paddle within the travel margin of that limit.
pub open spec fn player_velocity(y: int, cmd: MoveCommand) -> int {
    match cmd {
        MoveCommand::Up => if y + TRAVEL_MARGIN < TRAVEL_MAX_Y {
            PLAYER_SPEED as int
        } else {
            0
        },
        MoveCommand::Down => if y - TRAVEL_MARGIN > TRAVEL_MIN_Y {
            -PLAYER_SPEED
        } else {
            0
        },
        MoveCommand::Hold => 0,
    }
}

/// Position increment the opponent tracker writes for a paddle at
/// height `paddle_y` watching a ball at `(ball_x, ball_y)`: while the
/// ball is on the tracker's side (`ball_x >= 0`) it steps toward the
/// ball outside a wide dead-band; otherwise it steps toward the centre
/// outside a narrow one.
pub open spec fn ai_delta(paddle_y: int, ball_x: int, ball_y: int) -> int {
    if ball_x >= 0 {
        if paddle_y + AI_TRACK_BAND < ball_y {
            AI_STEP as int
        } else if paddle_y - AI_TRACK_BAND > ball_y {
            -AI_STEP
        } else {
            0
        }
    } else {
        if paddle_y < -AI_CENTER_BAND {
            AI_STEP as int
        } else if paddle_y > AI_CENTER_BAND {
            -AI_STEP
        } else {
            0
        }
    }
}

/// Horizontal station of a paddle: the configured offset, negated on
/// the left side.
pub open spec fn paddle_station_x(side: Side) -> int {
    if side == Side::Left {
        -PADDLE_X
    } else {
        PADDLE_X as int
    }
}

/// The paddle a fresh simulation starts with on the given side:
/// motionless, centred vertically, at the nominal extent and unscaled.
pub open spec fn initial_paddle(side: Side) -> PaddleModel {
    PaddleModel {
        x: paddle_station_x(side),
        y: 0,
        vy: 0,
        side: side,
        width: PADDLE_WIDTH as int,
        height: PADDLE_HEIGHT as int,
        scale_x: MILLI as int,
        scale_y: MILLI as int,
    }
}

/// Player bound clamp: a paddle within the travel margin of the upper
/// limit gets velocity zero from "move up", not the player speed;
/// symmetric within the margin of the lower limit for "move down".
pub proof fn lemma_player_blocked_at_limit(y: int)
    ensures
        y + TRAVEL_MARGIN >= TRAVEL_MAX_Y ==> player_velocity(y, MoveCommand::Up) == 0,
        y - TRAVEL_MARGIN <= TRAVEL_MIN_Y ==> player_velocity(y, MoveCommand::Down) == 0,
{
}

/// Tracker dead-band while the ball is on the tracker's side: the
/// paddle holds still anywhere within the wide band around the ball
/// height, and steps a fixed amount toward the ball outside it.
pub proof fn lemma_ai_dead_band(paddle_y: int, ball_x: int, ball_y: int)
    requires
        ball_x >= 0,
    ensures
        paddle_y - AI_TRACK_BAND <= ball_y <= paddle_y + AI_TRACK_BAND ==> ai_delta(
            paddle_y,
            ball_x,
            ball_y,
        ) == 0,
        ball_y > paddle_y + AI_TRACK_BAND ==> ai_delta(paddle_y, ball_x, ball_y) == AI_STEP,
        ball_y < paddle_y - AI_TRACK_BAND ==> ai_delta(paddle_y, ball_x, ball_y) == -AI_STEP,
{
}

/// Tracker dead-band while the ball is on the far side: the paddle
/// holds still anywhere within the narrow band around the centre line,
/// and steps a fixed amount toward the centre outside it.
pub proof fn lemma_ai_recenter_band(paddle_y: int, ball_x: int, ball_y: int)
    requires
        ball_x < 0,
    ensures
        -AI_CENTER_BAND <= paddle_y <= AI_CENTER_BAND ==> ai_delta(paddle_y, ball_x, ball_y)
            == 0,
        paddle_y < -AI_CENTER_BAND ==> ai_delta(paddle_y, ball_x, ball_y) == AI_STEP,
        paddle_y > AI_CENTER_BAND ==> ai_delta(paddle_y, ball_x, ball_y) == -AI_STEP,
{
}

impl Paddle {
    /// A fresh, motionless paddle at its side's horizontal station,
    /// centred vertically, at the nominal extent and unscaled.
    pub fn new(side: Side) -> (p: Paddle)
        ensures
            p@ == initial_paddle(side),
            paddle_wf(p@),
            paddle_in_range(p@),
    {
        Paddle {
            x: if side == Side::Left {
                -PADDLE_X
            } else {
                PADDLE_X
            },
            y: 0,
            vy: 0,
            side,
            width: PADDLE_WIDTH,
            height: PADDLE_HEIGHT,
            scale_x: MILLI,
            scale_y: MILLI,
        }
    }
}

/// The player controller: assign the paddle's vertical velocity from
/// the held command, guarded at the travel limits. Nothing else moves;
/// a later `paddle_movement` step applies the velocity.
pub fn player_control(p: &mut Paddle, cmd: MoveCommand)
    requires
        paddle_wf(old(p)@),
        paddle_in_range(old(p)@),
    ensures
        final(p)@ == (PaddleModel { vy: player_velocity(old(p)@.y, cmd), ..old(p)@ }),
        paddle_wf(final(p)@),
{
    p.vy = match cmd {
        MoveCommand::Up => if p.y + TRAVEL_MARGIN < TRAVEL_MAX_Y {
            PLAYER_SPEED
        } else {
            0
        },
        MoveCommand::Down => if p.y - TRAVEL_MARGIN > TRAVEL_MIN_Y {
            -PLAYER_SPEED
        } else {
            0
        },
        MoveCommand::Hold => 0,
    };
}

/// Advance the paddle by one velocity step.
pub fn paddle_movement(p: &mut Paddle)
    requires
        paddle_wf(old(p)@),
        paddle_in_range(old(p)@),
    ensures
        final(p)@ == (PaddleModel { y: old(p)@.y + old(p)@.vy, ..old(p)@ }),
        paddle_wf(final(p)@),
{
    p.y = p.y + p.vy;
}

/// The opponent tracker: write this tick's position increment straight
/// onto the paddle. The velocity field is untouched and the result is
/// not clamped to the travel limits.
pub fn ai_movement(p: &mut Paddle, ball: &Ball)
    requires
        paddle_wf(old(p)@),
        paddle_in_range(old(p)@),
        crate::ball::ball_in_range(ball@),
    ensures
        final(p)@ == (PaddleModel {
            y: old(p)@.y + ai_delta(old(p)@.y, ball@.x, ball@.y),
            ..old(p)@
        }),
        paddle_wf(final(p)@),
{
    if ball.x >= 0 {
        if p.y + AI_TRACK_BAND < ball.y {
            p.y = p.y + AI_STEP;
        } else if p.y - AI_TRACK_BAND > ball.y {
            p.y = p.y - AI_STEP;
        } else {
            p.y = p.y + 0;
        }
    } else {
        if p.y < -AI_CENTER_BAND {
            p.y = p.y + AI_STEP;
        } else if p.y > AI_CENTER_BAND {
            p.y = p.y - AI_STEP;
        }
    }
}

} // verus!
