//! A two-screen falling-square game: the player falls under a per-frame
//! gravity step, can be nudged sideways, and the game switches to a
//! game-over screen once the player has dropped below a boundary.
//!
//! Lengths are kept in thousandths of a world unit and time in
//! milliseconds, so that a speed in units per second times a duration in
//! milliseconds is exactly a displacement in thousandths of a unit.
use vstd::prelude::*;

pub mod physics;
pub mod world;
pub mod game;
pub mod laws;
