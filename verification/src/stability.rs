//! Boards that the rule leaves as they are: the board without life, and the
//! two-by-two block.

use crate::board::{
    alive_among, dead_board, generation, is_all_dead, is_board, next_generation, next_state,
    same_shape, Board,
};
use crate::cell::CellState;
use crate::torus::{lemma_wrap_in_range, lemma_wrap_unit_steps, neighbor_offsets, wrap};
use vstd::arithmetic::div_mod::lemma_small_mod;
use vstd::prelude::*;

verus! {

/// One generation keeps the shape of a board.
pub proof fn lemma_next_generation_keeps_shape(board: Board)
    requires
        is_board(board),
    ensures
        is_board(next_generation(board)),
        same_shape(next_generation(board), board),
{
}

/// Any number of generations keeps the shape of a board.
pub proof fn lemma_generation_keeps_shape(board: Board, count: nat)
    requires
        is_board(board),
    ensures
        is_board(generation(board, count)),
        same_shape(generation(board, count), board),
    decreases count,
{
    if count > 0 {
        lemma_generation_keeps_shape(board, (count - 1) as nat);
    }
}

/// On a board without life no cell has a live neighbour.
proof fn lemma_no_life_no_live_neighbors(board: Board, row: int, column: int, count: int)
    requires
        is_board(board),
        is_all_dead(board),
        0 <= count <= 8,
    ensures
        alive_among(board, row, column, count) == 0,
    decreases count,
{
    if count > 0 {
        lemma_no_life_no_live_neighbors(board, row, column, count - 1);
        lemma_wrap_in_range(row, neighbor_offsets()[count - 1].0, board.len() as int);
        lemma_wrap_in_range(column, neighbor_offsets()[count - 1].1, board[0].len() as int);
    }
}

/// A board on which every cell is dead stays as it is, whatever its shape and
/// however many generations pass.
pub proof fn lemma_dead_board_is_stable(board: Board, count: nat)
    requires
        is_board(board),
        is_all_dead(board),
    ensures
        generation(board, count) == board,
        is_all_dead(generation(board, count)),
    decreases count,
{
    if count > 0 {
        lemma_dead_board_is_stable(board, (count - 1) as nat);
        assert forall|row: int, column: int|
            0 <= row < board.len() && 0 <= column < board[0].len() implies next_state(
            board,
            row,
            column,
        ) == board[row][column] by {
            lemma_no_life_no_live_neighbors(board, row, column, 8);
        }
        assert(next_generation(board) =~~= board);
    }
}

/// The board that `kill_em_all` leaves in both grids stays as it is through
/// any number of generations: once cleared, a simulation shows nothing but
/// dead cells, in its current grid and in its previous one, after every tick.
pub proof fn lemma_cleared_board_stays_dead(rows: nat, columns: nat, count: nat)
    requires
        rows >= 1,
        columns >= 1,
    ensures
        generation(dead_board(rows, columns), count) == dead_board(rows, columns),
{
    lemma_dead_board_is_stable(dead_board(rows, columns), count);
}

/// Whether `(row, column)` belongs to the two-by-two block whose upper left
/// cell is `(top, left)`. The block continues across the board's edges.
pub open spec fn in_block(
    row: int,
    column: int,
    top: int,
    left: int,
    rows: int,
    columns: int,
) -> bool {
    &&& row == top || row == wrap(top, 1, rows)
    &&& column == left || column == wrap(left, 1, columns)
}

/// The board of the given shape on which exactly the cells of the block at
/// `(top, left)` are alive.
pub open spec fn block_board(rows: nat, columns: nat, top: int, left: int) -> Board {
    Seq::new(
        rows,
        |row: int|
            Seq::new(
                columns,
                |column: int|
                    if in_block(row, column, top, left, rows as int, columns as int) {
                        CellState::Alive
                    } else {
                        CellState::Dead
                    },
            ),
    )
}

/// The block is a still life: on a board of at least three rows and three
/// columns, a two-by-two block of live cells, wherever it stands, is the same
/// one generation later, and so is every other cell.
pub proof fn lemma_block_is_still_life(rows: nat, columns: nat, top: int, left: int)
    requires
        rows >= 3,
        columns >= 3,
        0 <= top < rows,
        0 <= left < columns,
    ensures
        next_generation(block_board(rows, columns, top, left)) == block_board(
            rows,
            columns,
            top,
            left,
        ),
{
    let board = block_board(rows, columns, top, left);
    lemma_wrap_unit_steps(top, rows as int);
    lemma_wrap_unit_steps(left, columns as int);
    lemma_small_mod(top as nat, rows);
    lemma_small_mod(left as nat, columns);
    assert forall|row: int, column: int| 0 <= row < rows && 0 <= column < columns implies next_state(
        board,
        row,
        column,
    ) == board[row][column] by {
        lemma_wrap_unit_steps(row, rows as int);
        lemma_wrap_unit_steps(column, columns as int);
        lemma_small_mod(row as nat, rows);
        lemma_small_mod(column as nat, columns);
        reveal_with_fuel(alive_among, 9);
    }
    assert(next_generation(board) =~~= board);
}

} // verus!
