//! Conway's Game of Life on a fixed-size grid with hard (non-wrapping) edges.
//! The grid model, the generation step, the rendering plan and the frame pacing
//! are verified; the terminal and the clock stay with the caller.
pub mod grid;
pub mod laws;
pub mod render;
pub mod rules;
pub mod schedule;
