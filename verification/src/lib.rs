//! Deterministic core of a tick-based 2D multi-agent combat simulation.
//!
//! Every `f32` quantity of the simulation (positions, velocities, health,
//! configuration bounds) is carried as its IEEE-754 binary32 bit pattern in a
//! `u32`; the module [`ieee`] holds the bit-level facts and operations the
//! library relies on.
pub mod ieee;
pub mod config;
pub mod prng;
pub mod state;
pub mod engine;

pub use config::Vector2D;
