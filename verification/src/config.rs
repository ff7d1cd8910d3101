//! Fixed sizes, speeds and limits of the game.

use vstd::prelude::*;

verus! {

/// Width of the paddle.
pub const PADDLE_WIDTH: i64 = 100;

/// Height of the paddle.
pub const PADDLE_HEIGHT: i64 = 10;

/// Distance the paddle travels in one frame while a key is held.
pub const PADDLE_SPEED: i64 = 5;

/// Distance from the top edge of a freshly placed paddle to the bottom of the
/// play area.
pub const PADDLE_BOTTOM_OFFSET: i64 = 15;

/// Radius of the ball.
pub const BALL_RADIUS: i64 = 10;

/// Distance the ball travels along each axis in one frame.
pub const BALL_SPEED: i64 = 5;

/// Number of rows in a fresh brick grid.
pub const NB_LIGNES: i64 = 5;

/// Number of columns in a fresh brick grid.
pub const NB_COLONNES: i64 = 10;

/// Width of a brick.
pub const BRICK_WIDTH: i64 = 50;

/// Height of a brick.
pub const BRICK_HEIGHT: i64 = 20;

/// Horizontal gap between neighbouring bricks.
pub const BRICK_SPACING_X: i64 = 5;

/// Vertical gap between neighbouring bricks.
pub const BRICK_SPACING_Y: i64 = 5;

/// Lives a round starts with.
pub const STARTING_LIVES: u32 = 3;

/// Largest magnitude of a coordinate or a side of a paddle or a brick.
///
/// Together with [`SPEED_LIMIT`] and [`COORD_LIMIT`] it keeps every sum the
/// simulation forms inside the range of `i64`.
pub const PLACEMENT_LIMIT: i64 = 100_000_000_000;

/// Largest magnitude of a ball's speed along one axis.
pub const SPEED_LIMIT: i64 = 1_000_000_000;

/// Largest magnitude of a ball coordinate, now and one frame ahead.
pub const COORD_LIMIT: i64 = 1_000_000_000_000;

} // verus!
