//! Round logic of a small mini-golf game: ball energy, rolling friction,
//! win/lose evaluation, contact classification and the game-phase flow.
//!
//! Every physical quantity is a fixed-point number counted in thousandths
//! of a unit (see `fixed`), so that all of it is exact integer arithmetic.
pub mod fixed;
pub mod ball;
pub mod round;
pub mod contact;
pub mod actions;
pub mod camera;
pub mod level;
pub mod screens;
