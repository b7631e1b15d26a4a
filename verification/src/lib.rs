//! The verified core of a chromaticity-diagram view: the index layout of the
//! triangle strip that fills the diagram, the memory layout of the vertex and
//! index buffers handed to OpenGL, the order in which a shader program is
//! built, the observer and RGB space selection, and the plan of draw calls.
//!
//! Everything that touches floating point numbers or the GPU lives outside
//! this crate; what stays here works on integers, enums and sequences.

pub mod buffer_layout;
pub mod color_choice;
pub mod paint_plan;
pub mod program_build;
pub mod selection;
pub mod strip;
pub mod vertex_cache;
