//! A 2D rendering back end that turns triangle lists, tagged with a draw
//! state, into an ordered stream of OpenGL commands.
//!
//! Nothing here talks to a driver. Every component writes the commands it
//! wants issued into a [`gl::Device`], and whoever owns the real context
//! replays that stream in order.

pub mod back_end;
pub mod draw_state;
pub mod error;
pub mod float_bits;
pub mod gl;
pub mod glsl;
pub mod glyph;
pub mod guarantees;
pub mod program;
pub mod shader_uniforms;
pub mod shader_utils;
pub mod shaders;
pub mod texture;
