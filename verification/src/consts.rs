//! Game constants.
//!
//! Lengths and speeds are in coordinate subunits (thousandths of a pixel),
//! times are in whole update ticks or in milliseconds.

use vstd::prelude::*;

verus! {

/// Coordinate subunits per pixel. All playfield geometry is computed in
/// these fixed-point subunits so that fractional pixel quantities of the
/// game rules stay exact integers.
pub const SUBUNITS_PER_PIXEL: i64 = 1000;

/// Edge length of the square playfield.
pub const FIELD_EDGE_LENGTH: i64 = 500 * SUBUNITS_PER_PIXEL;

/// Edge length of the player's solid square avatar.
pub const PLAYER_EDGE_LENGTH: i64 = 50 * SUBUNITS_PER_PIXEL;

/// Edge length of the collector zone centered on the player.
pub const COLLECTOR_EDGE_LENGTH: i64 = 80 * SUBUNITS_PER_PIXEL;

/// Distance the player moves in one tick while a movement key is held.
pub const PLAYER_SPEED: i64 = 5 * SUBUNITS_PER_PIXEL;

/// Player speed while the slow-motion key is held: the base speed divided
/// by the slow-motion factor of 2.2, rounded down to a whole subunit.
pub const PLAYER_SLOWMO_SPEED: i64 = 2272;

/// Distance an obstacle's leading edge advances per tick.
pub const OBSTACLE_SPEED: i64 = 3 * SUBUNITS_PER_PIXEL;

/// Nominal (full) length of an obstacle along its travel axis.
pub const OBSTACLE_LENGTH: i64 = 300 * SUBUNITS_PER_PIXEL;

/// Smallest width an obstacle can spawn with (inclusive).
pub const OBSTACLE_MIN_WIDTH: i64 = 6 * SUBUNITS_PER_PIXEL;

/// Largest width an obstacle can spawn with (exclusive).
pub const OBSTACLE_MAX_WIDTH: i64 = 14 * SUBUNITS_PER_PIXEL;

/// Ticks the pre-spawn warning line spends growing to full field length.
pub const OBSTACLE_WARNING_DRAW_TICKS: i64 = 20;

/// Ticks the finished warning line waits before the obstacle spawns.
pub const OBSTACLE_WARNING_FINISH_WAIT_TICKS: i64 = 20;

/// Total ticks of warning before an obstacle's lifetime reaches zero.
pub const OBSTACLE_PRE_SPAWN_WARN_TICKS: i64 = OBSTACLE_WARNING_DRAW_TICKS
    + OBSTACLE_WARNING_FINISH_WAIT_TICKS;

/// Ticks after an obstacle's total lifetime before its warning line starts
/// receding from the opposite side.
pub const OBSTACLE_HIDE_DELAY_TICKS: i64 = 20;

/// Distance the warning line grows or recedes per tick: the full field edge
/// divided by `OBSTACLE_WARNING_DRAW_TICKS`.
pub const OBSTACLE_WARNING_MOVE_SPEED: i64 = 25 * SUBUNITS_PER_PIXEL;

/// Thickness of the warning line.
pub const OBSTACLE_WARNING_WIDTH: i64 = 1 * SUBUNITS_PER_PIXEL;

/// Total distance, scaled by the obstacle speed, after which an obstacle is
/// despawned: the obstacle has fully crossed the field and its warning line
/// has fully receded (crossing the field takes the warning line
/// `FIELD_EDGE_LENGTH / OBSTACLE_WARNING_MOVE_SPEED`, that is,
/// `OBSTACLE_WARNING_DRAW_TICKS` ticks). An obstacle is kept while
/// `lifetime * OBSTACLE_SPEED < OBSTACLE_DESPAWN_TRAVEL`.
pub const OBSTACLE_DESPAWN_TRAVEL: i64 = FIELD_EDGE_LENGTH + OBSTACLE_LENGTH
    + OBSTACLE_SPEED * (OBSTACLE_WARNING_DRAW_TICKS + OBSTACLE_HIDE_DELAY_TICKS);

/// Generous machine-limit cap on an obstacle's lifetime, far above any value
/// the despawn rule allows to survive; it keeps all lifetime products within
/// `i64` range.
pub const OBSTACLE_LIFETIME_CAP: i64 = 1_000_000_000;

/// Points awarded when an obstacle is despawned after being dodged.
pub const DODGE_SCORE: u32 = 100;

/// Milliseconds a reset countdown runs after a lethal collision.
pub const RESET_COUNTDOWN_MS: u64 = 2000;

/// Spawn interval used before the first score-driven interval is computed.
pub const INITIAL_SPAWN_INTERVAL_MS: u64 = 4000;

/// Spawn-rate curve factor, in milliseconds.
pub const SPAWN_RATE_FACTOR_MS: u64 = 6000;

/// Milliseconds subtracted from the spawn-rate curve.
pub const SPAWN_RATE_SUBTRACT_MS: u64 = 1200;

/// The cube of `SPAWN_RATE_FACTOR_MS`, times 100: the interval before the
/// subtraction is the cube root of this value divided by the effective score.
pub const SPAWN_RATE_CUBE_NUMERATOR: u64 = 21_600_000_000_000;

/// Width of the window the playfield is centered in.
pub const WIN_WIDTH: i64 = 800 * SUBUNITS_PER_PIXEL;

/// Height of the window the playfield is centered in.
pub const WIN_HEIGHT: i64 = 600 * SUBUNITS_PER_PIXEL;

/// Thickness of the playfield border.
pub const FIELD_EDGE_BORDER_WIDTH: i64 = 1 * SUBUNITS_PER_PIXEL;

} // verus!
