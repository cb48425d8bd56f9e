//! The fixed measures of the game, in arena units and units per tick.

use vstd::prelude::*;

verus! {

/// Distance of each paddle from its own edge of the arena.
pub const PADDLE_INSET: u32 = 120;

/// Width of a paddle.
pub const PADDLE_WIDTH: u32 = 20;

/// Height of a paddle.
pub const PADDLE_HEIGHT: u32 = 120;

/// Width and height of the ball, which is square.
pub const BALL_SIZE: u32 = 20;

/// Distance a paddle travels in one tick while a key holds it.
pub const PADDLE_SPEED: i32 = 6;

/// Horizontal speed of the ball at the start of a round.
pub const SERVE_SPEED: u32 = 7;

/// Vertical offset between the centres of ball and paddle at which a struck
/// ball leaves at forty-five degrees.
pub const DEFLECTION_SPAN: u32 = 30;

} // verus!
