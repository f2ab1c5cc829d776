//! Typed descriptions of the graphics objects the effect is built from.

pub mod command;
pub mod framebuffer;
pub mod geometry;
pub mod shader;
pub mod state;
pub mod texture;
pub mod value;
