//! A minimal real-time simulation engine: a fixed-timestep accumulator
//! scheduler that decouples logic updates from rendering, driving a
//! pixel-addressable drawing surface.

pub mod color;
pub mod engine;
pub mod errors;
pub mod host;
pub mod schedule;
pub mod surface;
