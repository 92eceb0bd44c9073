//! The game's tuning, in one place. Lengths are fixed-point (see
//! [`crate::fixed`]): `GRAVITY` is a quarter of a unit per tick.

use vstd::prelude::*;

verus! {

/// Downward acceleration while gravity is on.
pub const GRAVITY: i64 = 250;

/// Upward speed that a jump gives.
pub const JUMP_IMPULSE: i64 = 2_750;

/// The player never rises above this height.
pub const SCREEN_TOP: i64 = -16_000;

/// Below this height the player has hit the ground.
pub const GROUND_LEVEL: i64 = 135_000;

/// On the start screen the player jumps by itself once it sinks below this height.
pub const AUTO_JUMP_LEVEL: i64 = 75_000;

/// A pipe gives its point once its left edge is at or left of this line.
pub const SCORE_LINE: i64 = 20_000;

/// Where a new player stands.
pub const PLAYER_START_X: i64 = 40_000;

/// Where the first pipe of a new game stands.
pub const FIRST_PIPE_X: i64 = 200_000;

/// Height of the floor tiles.
pub const FLOOR_LEVEL: i64 = 145_000;

/// Number of floor tiles.
pub const NUMBER_OF_TILES: u8 = 14;

/// Number of pipes in the lane.
pub const NUM_PIPES: usize = 4;

/// Body segments under each pipe tip.
pub const SEGMENTS: usize = 4;

/// Distance that a pipe moves left in one tick.
pub const PIPE_SPEED: i64 = 1_000;

/// Space between two pipes, as a multiple of their width.
pub const SPACE_MULTIPLIER: i64 = 1_500;

/// Height of the gap between the upper and the lower half of a pipe.
pub const VERTICAL_GAP: i64 = 57_000;

/// Step of the tracker's time cursor from one sample of the noise to the next.
pub const VERTICAL_GAP_DEVIANCE: i64 = 600;

/// Lowest height of a gap's lower edge.
pub const TOP_MIN: i64 = VERTICAL_GAP + 5_000;

/// Greatest height of a gap's lower edge.
pub const TOP_MAX: i64 = 150_000 - VERTICAL_GAP;

/// Queries after which the tracker's window moves on.
pub const WINDOW_PERIOD: usize = 10;

/// Nanoseconds between death and the next start screen.
pub const RESTART_AFTER: u64 = 1_000_000_000;

/// Vertical speed at which the player's sprite is turned furthest.
pub const TILT_SPEED: i64 = 7_000;

/// Furthest turn of the player's sprite, in thousandths of a radian.
pub const TILT_ANGLE: i64 = 600;

} // verus!
