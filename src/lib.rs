//! Conway's Game of Life on a square grid with hard edges, together with the
//! state machine that drives it from keyboard and pointer input.
pub mod grid;
pub mod evolution;
pub mod pattern;
pub mod controller;
