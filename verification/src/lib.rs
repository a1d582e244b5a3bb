//! Verified core of a two-player Pong simulation.
//!
//! The library owns the per-tick motion and collision rules: ball
//! integration, wall reflection, goal detection with score accounting,
//! paddle collision response with an angle-dependent bounce and a
//! progressive speed-up, the player paddle controller, and the reactive
//! tracker that drives the opponent paddle.
//!
//! All world quantities are fixed-point integers in milli-units: one
//! world unit is `MILLI` subunits. Angles are in milliradians.
//! Presentation (windowing, rendering, audio, input devices) is left to
//! the caller, which feeds discrete commands in and reads positions,
//! scores and sound cues out.

use vstd::prelude::*;

pub mod ball;
pub mod collision;
pub mod fixed;
pub mod geom;
pub mod paddle;
pub mod score;
pub mod sim;
pub mod trig;

verus! {

/// Fixed-point scale: subunits per world unit.
pub const MILLI: i64 = 1000;

/// Horizontal goal line on the right side; crossing it scores for the left player.
pub const GOAL_RIGHT_X: i64 = 900_000;

/// Horizontal goal line on the left side; crossing it scores for the right player.
pub const GOAL_LEFT_X: i64 = -900_000;

/// Upper wall: a ball at or above this height reflects downward.
pub const WALL_TOP_Y: i64 = 345_000;

/// Lower wall: a ball at or below this height reflects upward.
pub const WALL_BOTTOM_Y: i64 = -345_000;

/// Upper limit of paddle travel used by the player controller guard.
pub const TRAVEL_MAX_Y: i64 = 350_000;

/// Lower limit of paddle travel used by the player controller guard.
pub const TRAVEL_MIN_Y: i64 = -350_000;

/// Margin kept between the paddle centre and a travel limit by the guard.
pub const TRAVEL_MARGIN: i64 = 85_000;

/// Vertical speed of the player paddle while a direction is held.
pub const PLAYER_SPEED: i64 = 12_000;

/// Horizontal relaunch speed of the ball after a goal; also the initial
/// value of the speed-up scalar.
pub const INITIAL_SPEED: i64 = 5_000;

/// Base speed fed into the bounce-velocity formulas on a paddle hit.
pub const BOUNCE_BASE_SPEED: i64 = 5_000;

/// Once the speed-up scalar is at or above this value, paddle hits leave it unchanged.
pub const MAX_SPEED_UP: i64 = 37_000;

/// Amount added to the speed-up scalar by a paddle hit below the cap.
pub const SPEED_UP_STEP: i64 = 500;

/// Ceiling on the speed-up scalar kept as a ball invariant: a hit below
/// `MAX_SPEED_UP` lands strictly under it, and a hit at or above
/// `MAX_SPEED_UP` changes nothing.
pub const SPEED_UP_CAP: i64 = MAX_SPEED_UP + SPEED_UP_STEP;

/// Maximum deflection angle in milliradians (50 degrees).
pub const MAX_BOUNCE_ANGLE: i64 = 873;

/// Half the nominal paddle height, used by the bounce-angle formula.
pub const PADDLE_HALF_HEIGHT: i64 = 62_500;

/// Nominal paddle extent (full width and height).
pub const PADDLE_WIDTH: i64 = 20_000;

/// Nominal paddle extent (full width and height).
pub const PADDLE_HEIGHT: i64 = 125_000;

/// Nominal ball extent (full width and height).
pub const BALL_WIDTH: i64 = 20_000;

/// Nominal ball extent (full width and height).
pub const BALL_HEIGHT: i64 = 20_000;

/// Padding added to the scaled ball extent before the overlap test, to
/// avoid edge tunnelling (one world unit).
pub const BALL_PAD: i64 = 1_000;

/// Distance the opponent tracker moves its paddle per tick.
pub const AI_STEP: i64 = 5_000;

/// Half-width of the tracker's dead-band while the ball is on its side.
pub const AI_TRACK_BAND: i64 = 50_000;

/// Half-width of the tracker's dead-band while it recentres.
pub const AI_CENTER_BAND: i64 = 10_000;

/// Horizontal position of each paddle (negated for the left side).
pub const PADDLE_X: i64 = 640_000;

/// Bound on positions accepted by the stepping functions; far beyond the
/// play field, it only keeps the fixed-point arithmetic inside `i64`.
pub const POS_LIMIT: i64 = 1_000_000_000_000;

/// Bound on velocities kept as a state invariant; far above any speed the
/// rules produce, it only keeps the fixed-point arithmetic inside `i64`.
pub const VEL_LIMIT: i64 = 1_000_000;

/// Bound on nominal extents kept as a state invariant.
pub const SIZE_LIMIT: i64 = 1_000_000;

/// Bound on scale factors kept as a state invariant.
pub const SCALE_LIMIT: i64 = 1_000_000;

} // verus!
