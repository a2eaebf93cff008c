//! The mathematical model of the game: boards, the rule of Life and the
//! generations of a board.
//!
//! Everything here is specification. The executable grid and simulation
//! state their contracts over these functions.

use crate::cell::CellState;
use crate::torus::{neighbor_offsets, wrap, Cell};
use vstd::prelude::*;

verus! {

/// The content of a grid: a sequence of rows, each a sequence of cell states.
pub type Board = Seq<Seq<CellState>>;

/// A board is rectangular and has at least one row and one column.
pub open spec fn is_board(board: Board) -> bool {
    &&& board.len() >= 1
    &&& board[0].len() >= 1
    &&& forall|row: int| 0 <= row < board.len() ==> (#[trigger] board[row]).len() == board[0].len()
}

/// Two boards have as many rows and as many columns as each other.
pub open spec fn same_shape(first: Board, second: Board) -> bool {
    first.len() == second.len() && first[0].len() == second[0].len()
}

/// The board of the given shape on which every cell is dead.
pub open spec fn dead_board(rows: nat, columns: nat) -> Board {
    Seq::new(rows, |row: int| Seq::new(columns, |column: int| CellState::Dead))
}

/// Every cell of the board is dead.
pub open spec fn is_all_dead(board: Board) -> bool {
    forall|row: int, column: int|
        0 <= row < board.len() && 0 <= column < board[row].len() ==> #[trigger] board[row][column]
            == CellState::Dead
}

/// The state of the neighbour of `(row, column)` that stands at `index` in the
/// order of [`neighbor_offsets`], found by wrapping around the board's edges.
pub open spec fn neighbor_state(board: Board, row: int, column: int, index: int) -> CellState {
    board[wrap(row, neighbor_offsets()[index].0, board.len() as int)][wrap(
        column,
        neighbor_offsets()[index].1,
        board[0].len() as int,
    )]
}

/// How many of the first `count` neighbours of `(row, column)` are alive.
pub open spec fn alive_among(board: Board, row: int, column: int, count: int) -> nat
    decreases count,
{
    if count <= 0 {
        0
    } else {
        alive_among(board, row, column, count - 1) + if neighbor_state(
            board,
            row,
            column,
            count - 1,
        ) == CellState::Alive {
            1nat
        } else {
            0nat
        }
    }
}

/// How many of the eight toroidal neighbours of `(row, column)` are alive. A
/// neighbour that several offsets reach is counted once for each of them.
pub open spec fn alive_neighbors(board: Board, row: int, column: int) -> nat {
    alive_among(board, row, column, 8)
}

/// The rule of Life: a live cell survives with two or three live neighbours,
/// a dead cell comes alive with exactly three, and every other cell is dead.
pub open spec fn rule(state: CellState, alive_neighbors: nat) -> CellState {
    match state {
        CellState::Alive => if alive_neighbors == 2 || alive_neighbors == 3 {
            CellState::Alive
        } else {
            CellState::Dead
        },
        CellState::Dead => if alive_neighbors == 3 {
            CellState::Alive
        } else {
            CellState::Dead
        },
    }
}

/// The state of `(row, column)` one generation after `board`.
pub open spec fn next_state(board: Board, row: int, column: int) -> CellState {
    rule(board[row][column], alive_neighbors(board, row, column))
}

/// The board one generation after `board`: the rule applied to every cell of
/// `board` at once.
pub open spec fn next_generation(board: Board) -> Board {
    Seq::new(
        board.len(),
        |row: int| Seq::new(board[0].len(), |column: int| next_state(board, row, column)),
    )
}

/// The board `count` generations after `board`.
pub open spec fn generation(board: Board, count: nat) -> Board
    decreases count,
{
    if count == 0 {
        board
    } else {
        next_generation(generation(board, (count - 1) as nat))
    }
}

/// `first` comes before `second` when the cells are read row by row.
pub open spec fn comes_before(first: Cell, second: Cell) -> bool {
    first.0 < second.0 || (first.0 == second.0 && first.1 < second.1)
}

/// Whether `cell` is one of the cells that `changes` lists.
pub open spec fn lists(changes: Seq<(Cell, CellState)>, cell: Cell) -> bool {
    exists|index: int| 0 <= index < changes.len() && (#[trigger] changes[index]).0 == cell
}

/// `changes` is the difference from `previous` to `current`: it lists, row by
/// row and each cell once, exactly the cells whose state is not the same on
/// both boards, each with its state on `current`.
pub open spec fn is_difference(
    changes: Seq<(Cell, CellState)>,
    previous: Board,
    current: Board,
) -> bool {
    &&& forall|index: int|
        0 <= index < changes.len() ==> {
            let (cell, state) = #[trigger] changes[index];
            &&& cell.0 < current.len()
            &&& cell.1 < current[0].len()
            &&& previous[cell.0 as int][cell.1 as int] != state
            &&& current[cell.0 as int][cell.1 as int] == state
        }
    &&& forall|row: usize, column: usize|
        row < current.len() && column < current[0].len() && previous[row as int][column as int]
            != current[row as int][column as int] ==> lists(changes, (row, column))
    &&& forall|first: int, second: int|
        0 <= first < second < changes.len() ==> comes_before(
            (#[trigger] changes[first]).0,
            (#[trigger] changes[second]).0,
        )
}

} // verus!
