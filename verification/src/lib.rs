//! A lens-flare frame planner.
//!
//! The crate decides which graphics calls make up a frame of the effect and in
//! which order they are issued; it never talks to a graphics driver itself. Every
//! operation that touches the GPU is returned as a list of [`gl_wrapper::command::Command`]
//! values which the embedding program replays against its context.
//!
//! Single-precision numbers are carried as their IEEE-754 bit patterns (`u32`);
//! the planner routes them but never computes with them.

pub mod fps_cap;
pub mod gl_wrapper;
pub mod lfg;
pub mod window_state;
