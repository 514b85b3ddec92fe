//! Core state machine of a grid snake game: direction arbitration, per-tick
//! movement, collision handling, growth, and apple placement.

pub mod game;
mod rng;
