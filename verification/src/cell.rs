//! The state of a single cell.

use vstd::prelude::*;

verus! {

/// Whether a cell is alive or dead.
#[derive(Clone, Copy, PartialEq, Eq, Debug, Structural)]
pub enum CellState {
    Alive,
    Dead,
}

} // verus!
