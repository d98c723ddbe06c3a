//! The simulation core of a two-paddle ball game, in exact fixed-point
//! arithmetic.
//!
//! Three per-frame routines act on a shared state of positions and
//! velocities: paddle control, ball motion and bounce reflection. Every
//! quantity is a whole number of a small unit (see [`units`]), so each routine
//! is an exact function of its inputs and a frame replays identically on
//! every machine.

pub mod arena;
pub mod ball;
pub mod bounce;
pub mod input;
pub mod laws;
pub mod paddle;
pub mod position;
pub mod simulation;
pub mod storage;
pub mod units;

pub use crate::ball::{Ball, BallSystem};
pub use crate::bounce::BounceSystem;
pub use crate::input::AxisInput;
pub use crate::paddle::{Paddle, PaddleSystem, Side};
pub use crate::position::Position;
pub use crate::simulation::Simulation;
