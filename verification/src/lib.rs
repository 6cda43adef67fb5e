//! Core engine of a small arcade game: a player-controlled square dodges
//! rectangular obstacles that spawn on the four edges of a square playfield
//! and travel inward.
//!
//! All playfield geometry is fixed-point: coordinates are `i64` values in
//! subunits of a pixel (see [`consts::SUBUNITS_PER_PIXEL`]), so the
//! fractional pixel quantities of the game rules (half widths, slowed
//! movement, spawn-rate curves) stay exact integers.

pub mod consts;
pub mod geom;
pub mod obstacle;
pub mod player;
pub mod rng;
pub mod sched;
pub mod timing;

pub mod game;
