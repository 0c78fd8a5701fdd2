//! Normalises the diagnostics of shader compilers into one error model and
//! routes validation requests to the backend of the requested shading
//! language.

pub mod common;
pub mod compiler;
pub mod dxc;
pub mod error_text;
pub mod glsl;
pub mod hlsl;
pub mod pattern;
pub mod server;
pub mod shader_error;
pub mod text;
pub mod wgsl;
