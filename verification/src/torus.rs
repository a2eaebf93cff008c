//! Neighbour geometry on a torus: wrap-around offsets and the eight
//! neighbours of a cell.

use vstd::prelude::*;
use vstd::arithmetic::div_mod::{
    lemma_fundamental_div_mod, lemma_fundamental_div_mod_converse, lemma_mod_bound,
    lemma_mod_pos_bound, lemma_small_mod,
};

verus! {

/// A cell coordinate: `(row, column)`.
pub type Cell = (usize, usize);

/// The position reached from `position` by `offset` steps on a ring of
/// `cells` positions: the non-negative remainder of `position + offset + cells`.
pub open spec fn wrap(position: int, offset: int, cells: int) -> int {
    (position + offset + cells) % cells
}

/// A wrapped position lies on the ring.
pub proof fn lemma_wrap_in_range(position: int, offset: int, cells: int)
    requires
        cells >= 1,
    ensures
        0 <= wrap(position, offset, cells) < cells,
{
    lemma_mod_bound(position + offset + cells, cells);
}

/// The remainder of a negative dividend, from the remainder of its negation.
proof fn lemma_remainder_of_negative(dividend: int, ring: int)
    requires
        dividend < 0,
        ring > 0,
    ensures
        (-dividend) % ring == 0 ==> dividend % ring == 0,
        (-dividend) % ring != 0 ==> dividend % ring == ring - (-dividend) % ring,
{
    let quotient = (-dividend) / ring;
    let rest = (-dividend) % ring;
    lemma_fundamental_div_mod(-dividend, ring);
    lemma_mod_pos_bound(-dividend, ring);
    if rest == 0 {
        assert(dividend == (-quotient) * ring + 0) by (nonlinear_arith)
            requires
                -dividend == ring * quotient + rest,
                rest == 0,
        ;
        lemma_fundamental_div_mod_converse(dividend, ring, -quotient, 0);
    } else {
        assert(dividend == (-quotient - 1) * ring + (ring - rest)) by (nonlinear_arith)
            requires
                -dividend == ring * quotient + rest,
        ;
        lemma_fundamental_div_mod_converse(dividend, ring, -quotient - 1, ring - rest);
    }
}

/// Moves `position` by `offset` on a ring of `cells` positions.
///
/// The result is the non-negative remainder, also where `position + offset`
/// is negative.
pub fn get_offset(position: usize, offset: isize, cells: usize) -> (wrapped: usize)
    requires
        cells >= 1,
    ensures
        wrapped == wrap(position as int, offset as int, cells as int),
        wrapped < cells,
{
    let ring: i128 = cells as i128;
    let shifted: i128 = position as i128 + offset as i128 + ring;
    let remainder: i128 = shifted % ring;
    proof {
        if shifted < 0 {
            lemma_remainder_of_negative(shifted as int, ring as int);
        }
    }
    if remainder < 0 {
        (remainder + ring) as usize
    } else {
        remainder as usize
    }
}

/// The eight steps `(row, column)` from a cell to its neighbours, rows first,
/// without the step `(0, 0)` that stays on the cell.
pub open spec fn neighbor_offsets() -> Seq<(int, int)> {
    seq![(-1, -1), (-1, 0), (-1, 1), (0, -1), (0, 1), (1, -1), (1, 0), (1, 1)]
}

/// The eight neighbours of `cell` on a torus of the given shape, in the order
/// of [`neighbor_offsets`], each coordinate wrapped on its own.
pub open spec fn neighbor_cells(cell: Cell, shape: (usize, usize)) -> Seq<Cell> {
    Seq::new(
        8,
        |index: int|
            (
                wrap(cell.0 as int, neighbor_offsets()[index].0, shape.0 as int) as usize,
                wrap(cell.1 as int, neighbor_offsets()[index].1, shape.1 as int) as usize,
            ),
    )
}

/// Where one step forth, no step and one step back lead on a ring, in terms
/// of the position's own remainder.
pub proof fn lemma_wrap_unit_steps(position: int, cells: int)
    requires
        cells >= 1,
    ensures
        0 <= position % cells < cells,
        wrap(position, 0, cells) == position % cells,
        position % cells + 1 < cells ==> wrap(position, 1, cells) == position % cells + 1,
        position % cells + 1 == cells ==> wrap(position, 1, cells) == 0,
        position % cells >= 1 ==> wrap(position, -1, cells) == position % cells - 1,
        position % cells == 0 ==> wrap(position, -1, cells) == cells - 1,
{
    let quotient = position / cells;
    let rest = position % cells;
    lemma_fundamental_div_mod(position, cells);
    lemma_mod_bound(position, cells);
    assert(position + 0 + cells == (quotient + 1) * cells + rest) by (nonlinear_arith)
        requires
            position == cells * quotient + rest,
    ;
    lemma_fundamental_div_mod_converse(position + 0 + cells, cells, quotient + 1, rest);
    if rest + 1 < cells {
        assert(position + 1 + cells == (quotient + 1) * cells + (rest + 1)) by (nonlinear_arith)
            requires
                position == cells * quotient + rest,
        ;
        lemma_fundamental_div_mod_converse(position + 1 + cells, cells, quotient + 1, rest + 1);
    } else {
        assert(position + 1 + cells == (quotient + 2) * cells + 0) by (nonlinear_arith)
            requires
                position == cells * quotient + rest,
                rest + 1 == cells,
        ;
        lemma_fundamental_div_mod_converse(position + 1 + cells, cells, quotient + 2, 0);
    }
    if rest >= 1 {
        assert(position + (-1) + cells == (quotient + 1) * cells + (rest - 1)) by (nonlinear_arith)
            requires
                position == cells * quotient + rest,
        ;
        lemma_fundamental_div_mod_converse(position + (-1) + cells, cells, quotient + 1, rest - 1);
    } else {
        assert(position + (-1) + cells == quotient * cells + (cells - 1)) by (nonlinear_arith)
            requires
                position == cells * quotient + rest,
                rest == 0,
        ;
        lemma_fundamental_div_mod_converse(position + (-1) + cells, cells, quotient, cells - 1);
    }
}

/// What holds of the eight neighbours of any cell on any torus with at least
/// one row and one column: each lies inside the grid; no two of them
/// coincide exactly when the grid has at least three rows and three columns;
/// and none of them is the cell itself exactly when the grid has at least two rows
/// and two columns, or the cell lies outside the grid.
pub proof fn lemma_neighbor_cells(cell: Cell, shape: (usize, usize))
    requires
        shape.0 >= 1,
        shape.1 >= 1,
    ensures
        neighbor_cells(cell, shape).len() == 8,
        forall|index: int|
            0 <= index < 8 ==> (#[trigger] neighbor_cells(cell, shape)[index]).0 < shape.0
                && neighbor_cells(cell, shape)[index].1 < shape.1,
        neighbor_cells(cell, shape).no_duplicates() <==> shape.0 >= 3 && shape.1 >= 3,
        !neighbor_cells(cell, shape).contains(cell) <==> (shape.0 >= 2 && shape.1 >= 2) || !(cell.0
            < shape.0 && cell.1 < shape.1),
{
    let neighbors = neighbor_cells(cell, shape);
    lemma_wrap_unit_steps(cell.0 as int, shape.0 as int);
    lemma_wrap_unit_steps(cell.1 as int, shape.1 as int);
    if shape.0 < 3 {
        assert(neighbors[0] == neighbors[5]);
    } else if shape.1 < 3 {
        assert(neighbors[0] == neighbors[2]);
    }
    if cell.0 < shape.0 && cell.1 < shape.1 {
        lemma_small_mod(cell.0 as nat, shape.0 as nat);
        lemma_small_mod(cell.1 as nat, shape.1 as nat);
        if shape.0 < 2 {
            assert(neighbors[1] == cell);
        } else if shape.1 < 2 {
            assert(neighbors[3] == cell);
        }
    }
}

/// How many neighbours the walk over the offsets has produced when it stands
/// at step `3 * (row_offset + 1) + (column_offset + 1)`.
spec fn produced(row_offset: int, column_offset: int) -> int {
    let step = 3 * (row_offset + 1) + (column_offset + 1);
    if step <= 4 {
        step
    } else {
        step - 1
    }
}

/// The eight toroidal neighbours of `cell` in a grid of the given shape.
///
/// The neighbours come in a fixed order: the row offset runs over -1, 0, 1,
/// inside it the column offset runs over -1, 0, 1, and the cell itself is left
/// out.
pub fn get_neighbor_cells(cell: Cell, shape: (usize, usize)) -> (neighbors: Vec<Cell>)
    requires
        shape.0 >= 1,
        shape.1 >= 1,
    ensures
        neighbors@ == neighbor_cells(cell, shape),
        neighbors@.len() == 8,
        forall|index: int|
            0 <= index < 8 ==> (#[trigger] neighbors@[index]).0 < shape.0 && neighbors@[index].1
                < shape.1,
        neighbors@.no_duplicates() <==> shape.0 >= 3 && shape.1 >= 3,
        !neighbors@.contains(cell) <==> (shape.0 >= 2 && shape.1 >= 2) || !(cell.0 < shape.0
            && cell.1 < shape.1),
{
    let mut offsets: Vec<Cell> = Vec::new();
    let (row_count, column_count) = shape;
    let (row, column) = cell;
    let mut row_offset: isize = -1;
    while row_offset <= 1
        invariant
            -1 <= row_offset <= 2,
            row_count == shape.0 >= 1,
            column_count == shape.1 >= 1,
            row == cell.0,
            column == cell.1,
            offsets@.len() == produced(row_offset as int, -1),
            forall|index: int|
                0 <= index < offsets@.len() ==> offsets@[index] == neighbor_cells(
                    cell,
                    shape,
                )[index],
        decreases 2 - row_offset,
    {
        let mut column_offset: isize = -1;
        while column_offset <= 1
            invariant
                -1 <= row_offset <= 1,
                -1 <= column_offset <= 2,
                row_count == shape.0 >= 1,
                column_count == shape.1 >= 1,
                row == cell.0,
                column == cell.1,
                offsets@.len() == produced(row_offset as int, column_offset as int),
                forall|index: int|
                    0 <= index < offsets@.len() ==> offsets@[index] == neighbor_cells(
                        cell,
                        shape,
                    )[index],
            decreases 2 - column_offset,
        {
            if !(row_offset == 0 && column_offset == 0) {
                let wrapped_row = get_offset(row, row_offset, row_count);
                let wrapped_column = get_offset(column, column_offset, column_count);
                offsets.push((wrapped_row, wrapped_column));
            }
            column_offset += 1;
        }
        row_offset += 1;
    }
    proof {
        assert(offsets@ =~= neighbor_cells(cell, shape));
        lemma_neighbor_cells(cell, shape);
    }
    offsets
}

} // verus!
