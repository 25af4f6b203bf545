//! A lunar-lander style simulation: a rocket falls under gravity, the pilot
//! throttles a vertical thruster and shifts sideways, and the game is won or
//! lost by the speed at which the rocket meets the landing platform.
//!
//! All quantities are fixed-point integers so that every rule is exact:
//! lengths and speeds in sub-units of `1 / SUBUNITS` pixel, fuel in tenths of
//! a litre.

mod arith;
pub mod hitbox;
pub mod game;
pub mod laws;
