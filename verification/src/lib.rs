//! Grid logic of a Game of Life simulation that runs its generations on a GPU.
//!
//! The GPU work itself (device setup, dispatch, readback) is done by the
//! program around this library; the library decides which buffers each
//! generation reads and writes, how large the dispatch is, how a grid is laid
//! out in GPU memory and back, and how a grid is rendered as a grey image.

pub mod grid;
pub mod luma;
pub mod codec;
pub mod schedule;
