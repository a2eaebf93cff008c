//! Conway's Game of Life on a toroidal grid.
//!
//! The crate is a verified simulation engine: a double-buffered grid whose
//! generation-advance is proved to apply the classic B3/S23 rule to every cell
//! of a frozen snapshot, with wrap-around neighbour indexing.
//!
//! - [`torus`] computes the eight wrap-around neighbours of a cell.
//! - [`board`] is the mathematical model: boards, the rule, generations.
//! - [`grid`] holds one generation in a dense matrix ([`matrix`]).
//! - [`life`] holds the previous and the current generation and advances them.
//! - [`stability`] proves which boards the rule leaves as they are.
//! - [`control`] decides what a key press asks of a running simulation.

pub mod board;
pub mod cell;
mod chance;
pub mod control;
pub mod grid;
pub mod life;
pub mod matrix;
pub mod stability;
pub mod torus;

pub use crate::cell::CellState;
pub use crate::grid::{get_alive_neighbor_count, GameMatrix, GridError};
pub use crate::life::GameOfLife;
pub use crate::torus::{get_neighbor_cells, get_offset, Cell};
