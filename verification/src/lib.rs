//! Simulation core of a small orbital arcade game.
//!
//! A single player skims around a central sun, trading proximity for power
//! while the heat drains its shield; obstacles spawn on a timer ahead of the
//! orbit; a cyclic four-phase supernova event periodically overrides the
//! controls; score accrues from power through a stepping multiplier.
//!
//! The whole state lives in fixed-point integers (thousandths of a unit for
//! scalars, micro-radians for angles, milliseconds for time) so that every
//! update rule is exact and verified. Rendering, audio and physics contact
//! detection are external collaborators: the core exposes read-only scalars
//! and discrete events, and takes the per-tick inputs (delta time, the engage
//! signal, contact reports) as plain values.

pub mod audio;
pub mod consts;
pub mod input;
pub mod num;
pub mod obstacle;
pub mod player;
mod rng;
pub mod score;
pub mod session;
pub mod sun;
pub mod supernova;
