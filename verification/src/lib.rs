//! A staged, double-buffered GPU compute pipeline for 2D stable-fluids style
//! simulation: field storage with ghost-cell padding, slot-counted kernel
//! binding, per-step current/previous role swapping, and a presentation pass.

pub mod config;
pub mod gpu;
pub mod model;
pub mod pipeline;
pub mod programs;
pub mod recorder;
pub mod render;
pub mod stage;
pub mod utils;
