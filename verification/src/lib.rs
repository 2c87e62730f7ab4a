//! Conway's Game of Life on a torus, with an optional sub-pixel rendering in
//! which three neighbouring cells colour the red, green and blue channels of
//! one displayed pixel.
//!
//! - `board` holds the mathematical model of a board and the laws proved of
//!   it: the toroidal neighbourhood, the rule, the colours.
//! - `game_of_life` holds the executable game, verified against that model.
//! - `density` holds the probability with which a board is randomised, and
//!   `random` the calls into the `rand` crate that draw with it.
//! - `panel` lays out the displayed surface: border, gauges, game area.
//! - `simulation` holds what a display host drives: commands, redraws and
//!   the plan for the time between events.

pub mod board;
pub mod density;
pub mod game_of_life;
pub mod panel;
pub mod random;
pub mod simulation;
