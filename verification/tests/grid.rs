use game_of_life::cell::CellState;
use game_of_life::grid::{get_alive_neighbor_count, GameMatrix, GridError};

fn grid_with(rows: usize, columns: usize, alive: &[(usize, usize)]) -> GameMatrix {
    let mut grid = GameMatrix::new(rows, columns).unwrap();
    for cell in alive {
        grid.set_state(*cell, CellState::Alive);
    }
    grid
}

#[test]
fn new_grid_has_the_shape_asked_for_and_no_life() {
    let grid = GameMatrix::new(2, 3).unwrap();
    assert_eq!(grid.shape(), (2, 3));
    for row in 0..2 {
        for column in 0..3 {
            assert_eq!(*grid.get_state((row, column)), CellState::Dead);
        }
    }
}

#[test]
fn new_grid_of_one_cell() {
    let grid = GameMatrix::new(1, 1).unwrap();
    assert_eq!(grid.shape(), (1, 1));
    assert_eq!(*grid.get_state((0, 0)), CellState::Dead);
}

#[test]
fn new_grid_without_rows_is_refused() {
    assert!(matches!(GameMatrix::new(0, 5), Err(GridError::InvalidDimensions)));
}

#[test]
fn new_grid_without_columns_is_refused() {
    assert!(matches!(GameMatrix::new(5, 0), Err(GridError::InvalidDimensions)));
}

#[test]
fn new_grid_without_rows_and_columns_is_refused() {
    assert!(matches!(GameMatrix::new(0, 0), Err(GridError::InvalidDimensions)));
}

#[test]
fn set_state_changes_one_cell_only() {
    let mut grid = GameMatrix::new(3, 4).unwrap();
    grid.set_state((1, 2), CellState::Alive);
    for row in 0..3 {
        for column in 0..4 {
            let expected = if (row, column) == (1, 2) {
                CellState::Alive
            } else {
                CellState::Dead
            };
            assert_eq!(*grid.get_state((row, column)), expected);
        }
    }
    assert_eq!(grid.shape(), (3, 4));
    grid.set_state((1, 2), CellState::Dead);
    assert_eq!(*grid.get_state((1, 2)), CellState::Dead);
}

#[test]
fn set_state_tells_rows_from_columns() {
    let mut grid = GameMatrix::new(2, 5).unwrap();
    grid.set_state((1, 4), CellState::Alive);
    assert_eq!(*grid.get_state((1, 4)), CellState::Alive);
    assert_eq!(*grid.get_state((0, 4)), CellState::Dead);
    assert_eq!(*grid.get_state((1, 3)), CellState::Dead);
}

#[test]
fn get_state_gives_the_same_answer_every_time() {
    let grid = grid_with(4, 4, &[(2, 1)]);
    let first = grid.get_state((2, 1)).clone();
    let second = grid.get_state((2, 1)).clone();
    let third = grid.get_state((2, 1)).clone();
    assert_eq!(first, CellState::Alive);
    assert_eq!(first, second);
    assert_eq!(second, third);
    let first = grid.get_state((0, 0)).clone();
    let second = grid.get_state((0, 0)).clone();
    assert_eq!(first, CellState::Dead);
    assert_eq!(first, second);
}

#[test]
fn kill_em_all_leaves_no_life_and_keeps_the_shape() {
    let mut grid = grid_with(3, 5, &[(0, 0), (1, 3), (2, 4)]);
    grid.kill_em_all();
    assert_eq!(grid.shape(), (3, 5));
    for row in 0..3 {
        for column in 0..5 {
            assert_eq!(*grid.get_state((row, column)), CellState::Dead);
        }
    }
}

#[test]
fn get_internal_hands_out_the_storage() {
    let grid = grid_with(2, 2, &[(0, 1)]);
    let _storage = grid.get_internal();
    assert_eq!(*grid.get_state((0, 1)), CellState::Alive);
}

#[test]
fn alive_neighbors_are_counted_around_the_cell() {
    let grid = grid_with(6, 6, &[(0, 0), (0, 1), (0, 2), (1, 0), (1, 2), (2, 0), (2, 1), (2, 2)]);
    assert_eq!(get_alive_neighbor_count(&grid, (1, 1)), 8);
    assert_eq!(get_alive_neighbor_count(&grid, (0, 0)), 2);
    assert_eq!(get_alive_neighbor_count(&grid, (4, 4)), 0);
}

#[test]
fn alive_neighbors_do_not_count_the_cell_itself() {
    let grid = grid_with(5, 5, &[(2, 2)]);
    assert_eq!(get_alive_neighbor_count(&grid, (2, 2)), 0);
    assert_eq!(get_alive_neighbor_count(&grid, (1, 1)), 1);
}

#[test]
fn alive_neighbors_are_found_across_the_edges() {
    let grid = grid_with(5, 6, &[(4, 5), (0, 5), (4, 0)]);
    assert_eq!(get_alive_neighbor_count(&grid, (0, 0)), 3);
    assert_eq!(get_alive_neighbor_count(&grid, (4, 5)), 2);
}

#[test]
fn alive_neighbors_on_a_single_cell_grid_count_the_cell_eight_times() {
    let grid = grid_with(1, 1, &[(0, 0)]);
    assert_eq!(get_alive_neighbor_count(&grid, (0, 0)), 8);
}

#[test]
fn alive_neighbors_on_two_rows_count_the_other_row_twice() {
    let grid = grid_with(2, 4, &[(1, 1)]);
    assert_eq!(get_alive_neighbor_count(&grid, (0, 1)), 2);
    assert_eq!(get_alive_neighbor_count(&grid, (1, 0)), 1);
}

#[test]
fn dead_cell_with_three_alive_neighbors_comes_alive() {
    let grid = grid_with(6, 6, &[(1, 1), (1, 2), (1, 3)]);
    assert_eq!(grid.get_next_state((2, 2)), CellState::Alive);
    assert_eq!(grid.get_next_state((0, 2)), CellState::Alive);
}

#[test]
fn alive_cell_with_one_alive_neighbor_dies() {
    let grid = grid_with(6, 6, &[(2, 2), (2, 3)]);
    assert_eq!(grid.get_next_state((2, 2)), CellState::Dead);
    assert_eq!(grid.get_next_state((2, 3)), CellState::Dead);
}

#[test]
fn alive_cell_without_alive_neighbors_dies() {
    let grid = grid_with(6, 6, &[(3, 3)]);
    assert_eq!(grid.get_next_state((3, 3)), CellState::Dead);
}

#[test]
fn alive_cell_with_two_alive_neighbors_stays_alive() {
    let grid = grid_with(6, 6, &[(1, 1), (1, 2), (1, 3)]);
    assert_eq!(grid.get_next_state((1, 2)), CellState::Alive);
}

#[test]
fn alive_cell_with_three_alive_neighbors_stays_alive() {
    let grid = grid_with(6, 6, &[(1, 1), (1, 2), (2, 1), (2, 2)]);
    assert_eq!(grid.get_next_state((1, 1)), CellState::Alive);
    assert_eq!(grid.get_next_state((2, 2)), CellState::Alive);
}

#[test]
fn alive_cell_with_four_alive_neighbors_dies() {
    let grid = grid_with(6, 6, &[(2, 2), (1, 2), (3, 2), (2, 1), (2, 3)]);
    assert_eq!(grid.get_next_state((2, 2)), CellState::Dead);
}

#[test]
fn dead_cell_with_two_alive_neighbors_stays_dead() {
    let grid = grid_with(6, 6, &[(2, 2), (2, 3)]);
    assert_eq!(grid.get_next_state((1, 2)), CellState::Dead);
    assert_eq!(grid.get_next_state((3, 3)), CellState::Dead);
}

#[test]
fn dead_cell_with_four_alive_neighbors_stays_dead() {
    let grid = grid_with(6, 6, &[(1, 2), (3, 2), (2, 1), (2, 3)]);
    assert_eq!(grid.get_next_state((2, 2)), CellState::Dead);
}

#[test]
fn get_next_state_does_not_change_the_grid() {
    let grid = grid_with(4, 4, &[(1, 1), (1, 2), (2, 1)]);
    assert_eq!(grid.get_next_state((2, 2)), CellState::Alive);
    assert_eq!(*grid.get_state((2, 2)), CellState::Dead);
    assert_eq!(grid.get_next_state((2, 2)), CellState::Alive);
}
