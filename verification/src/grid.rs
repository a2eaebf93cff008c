//! The grid: a fixed-size container of cell states with strict-bounds access
//! and the rule evaluator for a single cell.

use crate::board::{alive_among, alive_neighbors, dead_board, is_board, next_state, Board};
use crate::cell::CellState;
use crate::matrix::{cell_at, filled, matrix_cells, put_cell, shape_of, CellMatrix};
use crate::torus::{get_neighbor_cells, neighbor_cells, Cell};
use vstd::prelude::*;

verus! {

/// Why a grid could not be made.
#[derive(Clone, Copy, PartialEq, Eq, Debug, Structural)]
pub enum GridError {
    /// A grid needs at least one row and one column.
    InvalidDimensions,
}

/// A dense grid of cells whose shape is fixed when it is made.
pub struct GameMatrix(CellMatrix);

impl View for GameMatrix {
    type V = Board;

    /// The cells of the grid, row by row.
    closed spec fn view(&self) -> Board {
        matrix_cells(self.0)
    }
}

impl GameMatrix {
    /// The grid is rectangular, with at least one row and one column.
    pub open spec fn wf(&self) -> bool {
        is_board(self@)
    }

    /// Whether `cell` names a place inside the grid.
    pub open spec fn in_bounds(&self, cell: Cell) -> bool {
        cell.0 < self@.len() && cell.1 < self@[0].len()
    }

    /// Makes a grid of `rows` by `columns` dead cells, or refuses a grid
    /// without rows or without columns.
    pub fn new(rows: usize, columns: usize) -> (made: Result<GameMatrix, GridError>)
        requires
            rows * columns <= isize::MAX,
        ensures
            made is Err <==> rows == 0 || columns == 0,
            made matches Err(error) ==> error == GridError::InvalidDimensions,
            made matches Ok(grid) ==> grid.wf(),
            made matches Ok(grid) ==> grid@ == dead_board(rows as nat, columns as nat),
    {
        if rows == 0 || columns == 0 {
            return Err(GridError::InvalidDimensions);
        }
        let grid = GameMatrix(filled(rows, columns, CellState::Dead));
        assert(grid@ =~~= dead_board(rows as nat, columns as nat));
        Ok(grid)
    }

    /// Sets the state of one cell. The cell must lie inside the grid: direct
    /// access does not wrap.
    pub fn set_state(&mut self, cell: Cell, state: CellState)
        requires
            old(self).wf(),
            old(self).in_bounds(cell),
        ensures
            final(self).wf(),
            final(self)@ == old(self)@.update(
                cell.0 as int,
                old(self)@[cell.0 as int].update(cell.1 as int, state),
            ),
    {
        put_cell(&mut self.0, cell, state)
    }

    /// The state of one cell. The cell must lie inside the grid: direct access
    /// does not wrap.
    pub fn get_state(&self, cell: Cell) -> (state: &CellState)
        requires
            self.wf(),
            self.in_bounds(cell),
        ensures
            *state == self@[cell.0 as int][cell.1 as int],
    {
        cell_at(&self.0, cell)
    }

    /// The number of rows, then the number of columns.
    pub fn shape(&self) -> (shape: (usize, usize))
        requires
            self.wf(),
        ensures
            shape.0 == self@.len(),
            shape.1 == self@[0].len(),
    {
        shape_of(&self.0)
    }

    /// The matrix that stores the cells.
    pub fn get_internal(&self) -> (storage: &CellMatrix)
        ensures
            matrix_cells(*storage) == self@,
    {
        &self.0
    }

    /// What the state of `cell` will be after one generation, from the grid
    /// as it stands. The grid is not changed.
    pub fn get_next_state(&self, cell: Cell) -> (state: CellState)
        requires
            self.wf(),
            self.in_bounds(cell),
        ensures
            state == next_state(self@, cell.0 as int, cell.1 as int),
    {
        let alive_neighbors = get_alive_neighbor_count(self, cell);
        match self.get_state(cell) {
            CellState::Alive => {
                if alive_neighbors == 2 || alive_neighbors == 3 {
                    CellState::Alive
                } else {
                    CellState::Dead
                }
            },
            CellState::Dead => {
                if alive_neighbors == 3 {
                    CellState::Alive
                } else {
                    CellState::Dead
                }
            },
        }
    }

    /// Sets every cell to dead.
    pub fn kill_em_all(&mut self)
        requires
            old(self).wf(),
        ensures
            final(self).wf(),
            final(self)@ == dead_board(old(self)@.len(), old(self)@[0].len()),
    {
        let (rows, columns) = self.shape();
        let mut row: usize = 0;
        while row < rows
            invariant
                row <= rows,
                self.wf(),
                rows == self@.len() == old(self)@.len(),
                columns == self@[0].len() == old(self)@[0].len(),
                forall|r: int, c: int|
                    0 <= r < row && 0 <= c < columns ==> #[trigger] self@[r][c] == CellState::Dead,
            decreases rows - row,
        {
            let mut column: usize = 0;
            while column < columns
                invariant
                    row < rows,
                    column <= columns,
                    self.wf(),
                    rows == self@.len() == old(self)@.len(),
                    columns == self@[0].len() == old(self)@[0].len(),
                    forall|r: int, c: int|
                        0 <= r < row && 0 <= c < columns ==> #[trigger] self@[r][c]
                            == CellState::Dead,
                    forall|c: int|
                        0 <= c < column ==> #[trigger] self@[row as int][c] == CellState::Dead,
                decreases columns - column,
            {
                self.set_state((row, column), CellState::Dead);
                column += 1;
            }
            row += 1;
        }
        assert(self@ =~~= dead_board(old(self)@.len(), old(self)@[0].len()));
    }
}

/// How many of the eight toroidal neighbours of `cell` are alive in `matrix`.
pub fn get_alive_neighbor_count(matrix: &GameMatrix, cell: Cell) -> (count: usize)
    requires
        matrix.wf(),
    ensures
        count == alive_neighbors(matrix@, cell.0 as int, cell.1 as int),
        count <= 8,
{
    let shape = matrix.shape();
    let neighbors = get_neighbor_cells(cell, shape);
    let mut count: usize = 0;
    let mut index: usize = 0;
    while index < neighbors.len()
        invariant
            index <= 8,
            matrix.wf(),
            shape.0 == matrix@.len(),
            shape.1 == matrix@[0].len(),
            neighbors@ == neighbor_cells(cell, shape),
            count == alive_among(matrix@, cell.0 as int, cell.1 as int, index as int),
            count <= index,
        decreases 8 - index,
    {
        match matrix.get_state(neighbors[index]) {
            CellState::Alive => {
                count += 1;
            },
            CellState::Dead => {},
        }
        index += 1;
    }
    count
}

} // verus!
