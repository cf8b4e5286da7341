//! Conway's Game of Life on a finite rectangle with hard edges.
//!
//! A [`World2D`] owns a dense grid of [`Cell`]s and advances it one generation
//! at a time. Every operation is specified against [`Grid`], the mathematical
//! picture of a world: its two dimensions, the set of live positions and the
//! generation count.

pub mod cell;
pub mod grid;
pub mod laws;
mod random;
pub mod world;

pub use cell::{Cell, CellState};
pub use grid::Grid;
pub use world::{InitPolicy, World2D, WorldError};
