//! The core of a small 2D game: a player that moves one unit at a time on an
//! integer grid while direction keys are held, together with the decisions
//! of the loop that drives it.
//!
//! Everything here works on plain values. Opening the window, reading the
//! keyboard and the clock, and drawing are left to the program that links
//! this crate.

pub mod game_loop;
pub mod input;
pub mod player;
