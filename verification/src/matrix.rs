//! The dense storage behind a grid: a `nalgebra` matrix of cell states, and
//! what this crate assumes of it.
//!
//! Nothing in this file is proved. Each function is a single call into
//! `nalgebra`, with a contract that restates what that call does in terms of
//! [`matrix_cells`].

use crate::cell::CellState;
use nalgebra::DMatrix;
use vstd::prelude::*;

verus! {

/// A dynamically sized matrix of cell states, stored in a `nalgebra::DMatrix`.
///
/// The matrix is opaque to the verifier; what it holds is [`matrix_cells`].
#[verifier::external_body]
pub struct CellMatrix(DMatrix<CellState>);

/// The cells of a matrix as a sequence of rows: `matrix_cells(m)[r][c]` is the
/// cell in row `r` and column `c`. All rows have as many entries as the matrix
/// has columns.
pub uninterp spec fn matrix_cells(matrix: CellMatrix) -> Seq<Seq<CellState>>;

/// `DMatrix::from_element`: a matrix of the given shape with every cell set to
/// `state`. The call allocates `rows * columns` cells, so that product must
/// not exceed what an allocation can hold.
#[verifier::external_body]
pub(crate) fn filled(rows: usize, columns: usize, state: CellState) -> (matrix: CellMatrix)
    requires
        rows * columns <= isize::MAX,
    ensures
        matrix_cells(matrix) == Seq::new(
            rows as nat,
            |row: int| Seq::new(columns as nat, |column: int| state),
        ),
{
    CellMatrix(DMatrix::from_element(rows, columns, state))
}

/// `DMatrix::shape`: the number of rows, then the number of columns, which is
/// the length of every row.
#[verifier::external_body]
pub(crate) fn shape_of(matrix: &CellMatrix) -> (shape: (usize, usize))
    ensures
        shape.0 == matrix_cells(*matrix).len(),
        forall|row: int| 0 <= row < shape.0 ==> (#[trigger] matrix_cells(*matrix)[row]).len() == shape.1,
{
    matrix.0.shape()
}

/// Indexing a `DMatrix` by `(row, column)`: a reference to the cell at that
/// place. The index must lie inside the matrix.
#[verifier::external_body]
pub(crate) fn cell_at(matrix: &CellMatrix, cell: (usize, usize)) -> (state: &CellState)
    requires
        cell.0 < matrix_cells(*matrix).len(),
        cell.1 < matrix_cells(*matrix)[cell.0 as int].len(),
    ensures
        *state == matrix_cells(*matrix)[cell.0 as int][cell.1 as int],
{
    &matrix.0[cell]
}

/// Assigning through a `DMatrix` index `(row, column)`: that cell takes the
/// new state and every other cell stays as it was. The index must lie inside
/// the matrix.
#[verifier::external_body]
pub(crate) fn put_cell(matrix: &mut CellMatrix, cell: (usize, usize), state: CellState)
    requires
        cell.0 < matrix_cells(*old(matrix)).len(),
        cell.1 < matrix_cells(*old(matrix))[cell.0 as int].len(),
    ensures
        matrix_cells(*final(matrix)) == matrix_cells(*old(matrix)).update(
            cell.0 as int,
            matrix_cells(*old(matrix))[cell.0 as int].update(cell.1 as int, state),
        ),
{
    matrix.0[cell] = state
}

} // verus!
