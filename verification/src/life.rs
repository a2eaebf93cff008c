//! The simulation: two grids of one shape, the previous generation and the
//! current one, and the step that advances them.

use crate::board::{
    comes_before, dead_board, is_difference, lists, next_generation, next_state, same_shape,
};
use crate::cell::CellState;
use crate::chance::random_byte;
use crate::grid::{GameMatrix, GridError};
use crate::torus::Cell;
use std::mem::swap;
use vstd::prelude::*;

verus! {

/// A game of Life on a torus, holding the previous and the current generation.
pub struct GameOfLife {
    previous: GameMatrix,
    current: GameMatrix,
}

impl GameOfLife {
    /// The grid of the previous generation.
    pub closed spec fn spec_previous(&self) -> &GameMatrix {
        &self.previous
    }

    /// The grid of the current generation.
    pub closed spec fn spec_current(&self) -> &GameMatrix {
        &self.current
    }

    /// Both grids are well formed and have the same shape.
    pub open spec fn wf(&self) -> bool {
        &&& self.previous().wf()
        &&& self.current().wf()
        &&& same_shape(self.previous()@, self.current()@)
    }

    /// Makes a simulation whose two grids are `rows` by `columns` dead cells,
    /// or refuses one without rows or without columns.
    pub fn new(rows: usize, columns: usize) -> (made: Result<GameOfLife, GridError>)
        requires
            rows * columns <= isize::MAX,
        ensures
            made is Err <==> rows == 0 || columns == 0,
            made matches Err(error) ==> error == GridError::InvalidDimensions,
            made matches Ok(game) ==> game.wf(),
            made matches Ok(game) ==> game.previous()@ == dead_board(rows as nat, columns as nat),
            made matches Ok(game) ==> game.current()@ == dead_board(rows as nat, columns as nat),
    {
        let previous = match GameMatrix::new(rows, columns) {
            Ok(grid) => grid,
            Err(error) => {
                return Err(error);
            },
        };
        let current = match GameMatrix::new(rows, columns) {
            Ok(grid) => grid,
            Err(error) => {
                return Err(error);
            },
        };
        Ok(GameOfLife { previous, current })
    }

    /// The grid of the current generation.
    #[verifier::when_used_as_spec(spec_current)]
    pub fn current(&self) -> (grid: &GameMatrix)
        ensures
            grid == self.current(),
    {
        &self.current
    }

    /// The grid of the current generation, to set up a pattern in it.
    pub fn current_mut(&mut self) -> (grid: &mut GameMatrix)
        ensures
            *grid == old(self).current(),
            final(self).current() == *final(grid),
            final(self).previous() == old(self).previous(),
    {
        &mut self.current
    }

    /// The grid of the previous generation.
    #[verifier::when_used_as_spec(spec_previous)]
    pub fn previous(&self) -> (grid: &GameMatrix)
        ensures
            grid == self.previous(),
    {
        &self.previous
    }

    /// The grid of the previous generation, to change it in place.
    pub fn previous_mut(&mut self) -> (grid: &mut GameMatrix)
        ensures
            *grid == old(self).previous(),
            final(self).previous() == *final(grid),
            final(self).current() == old(self).current(),
    {
        &mut self.previous
    }

    /// Advances the simulation by one generation.
    ///
    /// The two grids change roles, so that the grid that was current becomes
    /// the previous one as it stands, and the rule is applied to every cell of
    /// that grid to fill the new current one. The shape stays.
    pub fn tick(&mut self)
        requires
            old(self).wf(),
        ensures
            final(self).wf(),
            final(self).previous() == old(self).current(),
            final(self).previous()@ == old(self).current()@,
            final(self).current()@ == next_generation(old(self).current()@),
            same_shape(final(self).current()@, old(self).current()@),
    {
        swap(&mut self.previous, &mut self.current);

        let (rows, columns) = self.shape();

        let mut row: usize = 0;
        while row < rows
            invariant
                row <= rows,
                self.wf(),
                self.previous == old(self).current,
                rows == self.current@.len(),
                columns == self.current@[0].len(),
                forall|r: int, c: int|
                    0 <= r < row && 0 <= c < columns ==> #[trigger] self.current@[r][c]
                        == next_state(self.previous@, r, c),
            decreases rows - row,
        {
            let mut column: usize = 0;
            while column < columns
                invariant
                    row < rows,
                    column <= columns,
                    self.wf(),
                    self.previous == old(self).current,
                    rows == self.current@.len(),
                    columns == self.current@[0].len(),
                    forall|r: int, c: int|
                        0 <= r < row && 0 <= c < columns ==> #[trigger] self.current@[r][c]
                            == next_state(self.previous@, r, c),
                    forall|c: int|
                        0 <= c < column ==> #[trigger] self.current@[row as int][c] == next_state(
                            self.previous@,
                            row as int,
                            c,
                        ),
                decreases columns - column,
            {
                let cell = (row, column);
                let new_state = self.previous.get_next_state(cell);
                self.current.set_state(cell, new_state);
                column += 1;
            }
            row += 1;
        }
        assert(self.current@ =~~= next_generation(self.previous@));
    }

    /// The number of rows, then the number of columns, of both grids.
    pub fn shape(&self) -> (shape: (usize, usize))
        requires
            self.wf(),
        ensures
            shape.0 == self.current()@.len() == self.previous()@.len(),
            shape.1 == self.current()@[0].len() == self.previous()@[0].len(),
    {
        self.current.shape()
    }

    /// Sets every cell of both grids to dead.
    pub fn kill_em_all(&mut self)
        requires
            old(self).wf(),
        ensures
            final(self).wf(),
            final(self).current()@ == dead_board(
                old(self).current()@.len(),
                old(self).current()@[0].len(),
            ),
            final(self).previous()@ == final(self).current()@,
    {
        self.current.kill_em_all();
        self.previous.kill_em_all();
        assert(self.previous@ =~~= self.current@);
    }

    /// The cells that the last tick changed, read row by row, each with the
    /// state it has now: what a display that already shows the previous
    /// generation has to repaint.
    pub fn changed_cells(&self) -> (changes: Vec<(Cell, CellState)>)
        requires
            self.wf(),
        ensures
            is_difference(changes@, self.previous()@, self.current()@),
    {
        let (rows, columns) = self.shape();
        let mut changes: Vec<(Cell, CellState)> = Vec::new();
        let mut row: usize = 0;
        while row < rows
            invariant
                row <= rows,
                self.wf(),
                rows == self.current@.len(),
                columns == self.current@[0].len(),
                self.reads_until(changes@, (row, 0)),
            decreases rows - row,
        {
            let mut column: usize = 0;
            while column < columns
                invariant
                    row < rows,
                    column <= columns,
                    self.wf(),
                    rows == self.current@.len(),
                    columns == self.current@[0].len(),
                    self.reads_until(changes@, (row, column)),
                decreases columns - column,
            {
                let cell = (row, column);
                let previous_state = *self.previous.get_state(cell);
                let current_state = *self.current.get_state(cell);
                let ghost before = changes@;
                if previous_state != current_state {
                    changes.push((cell, current_state));
                }
                proof {
                    assert forall|r: usize, c: usize|
                        r < rows && c < columns && comes_before((r, c), (row, (column + 1) as usize))
                            && self.previous@[r as int][c as int]
                            != self.current@[r as int][c as int] implies lists(changes@, (r, c)) by {
                        if (r, c) == cell {
                            assert(changes@[before.len() as int].0 == cell);
                        } else {
                            assert(comes_before((r, c), cell));
                            let index = choose|index: int|
                                0 <= index < before.len() && (#[trigger] before[index]).0 == (r, c);
                            assert(changes@[index].0 == (r, c));
                        }
                    }
                }
                column += 1;
            }
            row += 1;
        }
        changes
    }

    /// `changes` is the difference between the two grids as far as the cells
    /// before `end`, read row by row.
    spec fn reads_until(&self, changes: Seq<(Cell, CellState)>, end: Cell) -> bool {
        &&& forall|index: int|
            0 <= index < changes.len() ==> {
                let (cell, state) = #[trigger] changes[index];
                &&& cell.0 < self.current@.len()
                &&& cell.1 < self.current@[0].len()
                &&& comes_before(cell, end)
                &&& self.previous@[cell.0 as int][cell.1 as int] != state
                &&& self.current@[cell.0 as int][cell.1 as int] == state
            }
        &&& forall|row: usize, column: usize|
            row < self.current@.len() && column < self.current@[0].len() && comes_before(
                (row, column),
                end,
            ) && self.previous@[row as int][column as int] != self.current@[row as int][column as int]
                ==> lists(changes, (row, column))
        &&& forall|first: int, second: int|
            0 <= first < second < changes.len() ==> comes_before(
                (#[trigger] changes[first]).0,
                (#[trigger] changes[second]).0,
            )
    }

    /// Turns one cell of the current grid alive if `noise` says so: one value
    /// of `noise` in every `sparsity` does, the multiples of `sparsity`. A
    /// cell that is not chosen keeps its state.
    pub fn sow(&mut self, cell: Cell, noise: u8, sparsity: u8)
        requires
            old(self).wf(),
            old(self).current().in_bounds(cell),
            sparsity >= 1,
        ensures
            final(self).wf(),
            final(self).previous() == old(self).previous(),
            noise % sparsity == 0 ==> final(self).current()@ == old(self).current()@.update(
                cell.0 as int,
                old(self).current()@[cell.0 as int].update(cell.1 as int, CellState::Alive),
            ),
            noise % sparsity != 0 ==> final(self).current()@ == old(self).current()@,
    {
        if noise % sparsity == 0 {
            self.current.set_state(cell, CellState::Alive);
        }
    }

    /// Seeds the current grid at random: for every cell a byte is drawn, and
    /// the cell is sown with it as [`GameOfLife::sow`] says, so that about one
    /// cell in `sparsity` comes alive.
    ///
    /// Whatever is drawn, no cell dies and the previous grid is not touched;
    /// with a sparsity of one every cell comes alive.
    pub fn seed(&mut self, sparsity: u8)
        requires
            old(self).wf(),
            sparsity >= 1,
        ensures
            final(self).wf(),
            final(self).previous() == old(self).previous(),
            same_shape(final(self).current()@, old(self).current()@),
            forall|row: int, column: int|
                0 <= row < old(self).current()@.len() && 0 <= column < old(self).current()@[0].len()
                    ==> #[trigger] final(self).current()@[row][column] == CellState::Alive
                    || final(self).current()@[row][column] == old(self).current()@[row][column],
            sparsity == 1 ==> forall|row: int, column: int|
                0 <= row < old(self).current()@.len() && 0 <= column < old(self).current()@[0].len()
                    ==> #[trigger] final(self).current()@[row][column] == CellState::Alive,
    {
        let (rows, columns) = self.shape();
        let mut row: usize = 0;
        while row < rows
            invariant
                row <= rows,
                sparsity >= 1,
                self.wf(),
                self.previous == old(self).previous,
                rows == self.current@.len() == old(self).current@.len(),
                columns == self.current@[0].len() == old(self).current@[0].len(),
                forall|r: int, c: int|
                    0 <= r < rows && 0 <= c < columns ==> {
                        ||| #[trigger] self.current@[r][c] == CellState::Alive
                        ||| self.current@[r][c] == old(self).current@[r][c] && (sparsity != 1 || r
                            >= row)
                    },
            decreases rows - row,
        {
            let mut column: usize = 0;
            while column < columns
                invariant
                    row < rows,
                    column <= columns,
                    sparsity >= 1,
                    self.wf(),
                    self.previous == old(self).previous,
                    rows == self.current@.len() == old(self).current@.len(),
                    columns == self.current@[0].len() == old(self).current@[0].len(),
                    forall|r: int, c: int|
                        0 <= r < rows && 0 <= c < columns ==> {
                            ||| #[trigger] self.current@[r][c] == CellState::Alive
                            ||| self.current@[r][c] == old(self).current@[r][c] && (sparsity != 1
                                || r > row || (r == row && c >= column))
                        },
                decreases columns - column,
            {
                let noise = random_byte();
                self.sow((row, column), noise, sparsity);
                column += 1;
            }
            row += 1;
        }
    }
}

} // verus!
