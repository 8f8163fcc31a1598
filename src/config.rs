use vstd::prelude::*;

verus! {

/// Width of the playfield.
pub const WIDTH: u32 = 700;

/// Height of the playfield.
pub const HEIGHT: u32 = 800;

/// Radius of the ball.
pub const BALL_RADIUS: u32 = 10;

/// Number of one-unit sub-steps the ball makes per frame.
pub const BALL_SPEED: u32 = 4;

/// Width of the paddle.
pub const PAD_WIDTH: u32 = 100;

/// Height of the paddle.
pub const PAD_HEIGHT: u32 = 20;

/// Distance the paddle travels on one move command.
pub const PAD_STEP: u32 = 30;

/// Number of brick rows.
pub const ROW_COUNT: u32 = 7;

/// Number of brick columns.
pub const COLUMN_COUNT: u32 = 12;

/// Number of cells in the brick grid.
pub const BRICK_COUNT: u32 = ROW_COUNT * COLUMN_COUNT;

/// Height of one brick.
pub const BRICK_HEIGHT: u32 = 30;

/// Width of one brick.
pub const BRICK_WIDTH: u32 = 50;

/// Space above the brick grid.
pub const MARGIN_HEIGHT: u32 = 100;

/// Space left of the brick grid.
pub const MARGIN_WIDTH: u32 = 50;

} // verus!
