//! A two-player snake match on a wrapping grid.
//!
//! Two snakes share a bounded grid whose edges wrap around, compete for a
//! single piece of food, and end the match by running into themselves. The
//! crate holds the rules of the match: turning, stepping, wrapping, eating,
//! scoring and the restart cycle. Drawing and raw input stay with the caller.

pub mod cell;
pub mod chance;
pub mod direction;
pub mod game;
pub mod laws;
pub mod snake;
