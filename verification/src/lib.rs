//! A small Snake-style arcade game: a segmented player moves on a 10-unit
//! grid, eats randomly placed dots, grows a trailing tail, wraps at the
//! screen edges, and speeds up each time it eats.
//!
//! The per-tick update rules (direction buffering, wrap-around movement,
//! food lifecycle, tail management, collision detection) are verified here;
//! windowing and rendering live outside the library.

pub mod ecs;
pub mod game;
pub mod rng;
pub mod store;
