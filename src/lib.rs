//! Conway's Game of Life on a bounded grid, with a run controller that
//! decides, frame by frame, when the grid advances.

pub mod rules;
pub mod grid;
pub mod laws;
pub mod controller;
