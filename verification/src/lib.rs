//! A verified core for a script-driven 2D game host.
//!
//! A user script supplies lifecycle callbacks (`init`, `onload`, `update`,
//! `draw`, `event`); the host owns the frame loop, a drawing surface, an
//! input snapshot and a table of named resources.  This crate holds the
//! host's decision logic: frame pacing, the animation clock, the resource
//! registry, argument parsing for the script-facing API, and the dynamic
//! context scope that gates API calls.  Rendering, audio output and the
//! script evaluator itself live outside the library; drawing is recorded
//! as a list of commands for an unverified backend to replay.
//!
//! All coordinates, colors and time values use fixed-point arithmetic
//! (scale 1000, truncation toward zero); times are in microseconds.

pub mod anim;
pub mod api;
pub mod clock;
pub mod decl;
pub mod events;
pub mod fixed;
pub mod geom;
pub mod host;
pub mod input;
pub mod resources;
pub mod size;
pub mod value;
