//! Configuration and lifecycle core of an interactive double-pulley
//! (Atwood-style) rigid-body demonstration.
//!
//! A central mass hangs from two cables that run over two pulleys to two side
//! masses. This crate holds the verified core: the closed-form placement of
//! all bodies and cable constraints from the user-adjustable parameters, and
//! the event-driven lifecycle of the running scene (restart, trace sampling,
//! trace clearing). The real-time physics integrator and the rendering
//! frontend are external collaborators; they are driven through plain values
//! (fixed-point milli-unit coordinates, entity records, commands) by a thin
//! unverified shell.

pub mod command;
pub mod geometry;
pub mod math;
pub mod params;
pub mod scene;
pub mod trace;
pub mod tuning;
pub mod vec3;
