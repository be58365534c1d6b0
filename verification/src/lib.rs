//! The input bookkeeping, the shape batching and the frame decisions of a
//! small wgpu drawing program.

pub mod frame;
pub mod input;
pub mod vertex;
