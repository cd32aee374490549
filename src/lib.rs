//! A tick-based arcade simulation: a frog crossing a road and a river.
pub mod actors;
pub mod arena;
pub mod frog;
pub mod game;
pub mod keys;
pub mod motion;
pub mod pt;
pub mod rng;
