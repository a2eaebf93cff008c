use game_of_life::torus::{get_neighbor_cells, get_offset};

#[test]
fn test_neighbor_cells() {
    let offsets = get_neighbor_cells((0, 0), (10, 10));
    assert_eq!(offsets[0], (9, 9));
    assert_eq!(offsets[1], (9, 0));
    assert_eq!(offsets[2], (9, 1));
    assert_eq!(offsets[3], (0, 9));
    assert_eq!(offsets[4], (0, 1));
    assert_eq!(offsets[5], (1, 9));
    assert_eq!(offsets[6], (1, 0));
    assert_eq!(offsets[7], (1, 1));

    let offsets = get_neighbor_cells((5, 5), (10, 10));
    assert_eq!(offsets[0], (4, 4));
    assert_eq!(offsets[1], (4, 5));
    assert_eq!(offsets[2], (4, 6));
    assert_eq!(offsets[3], (5, 4));
    assert_eq!(offsets[3], (5, 4));
    assert_eq!(offsets[4], (5, 6));
    assert_eq!(offsets[5], (6, 4));
    assert_eq!(offsets[6], (6, 5));
    assert_eq!(offsets[7], (6, 6));
}

#[test]
fn test_get_offset() {
    assert_eq!(get_offset(0, -1, 10), 9);
    assert_eq!(get_offset(0, 1, 10), 1);
}

#[test]
fn offset_steps_back_inside_the_ring() {
    assert_eq!(get_offset(5, -1, 10), 4);
    assert_eq!(get_offset(5, 0, 10), 5);
    assert_eq!(get_offset(9, 1, 10), 0);
}

#[test]
fn offset_on_a_ring_of_one_is_zero() {
    assert_eq!(get_offset(0, -1, 1), 0);
    assert_eq!(get_offset(0, 0, 1), 0);
    assert_eq!(get_offset(0, 1, 1), 0);
}

#[test]
fn offset_is_never_negative_for_long_steps_back() {
    assert_eq!(get_offset(0, -11, 10), 9);
    assert_eq!(get_offset(3, -20, 10), 3);
    assert_eq!(get_offset(3, -23, 10), 0);
    assert_eq!(get_offset(0, isize::MIN, 10), 2);
}

#[test]
fn offset_takes_the_largest_arguments() {
    assert_eq!(get_offset(usize::MAX, isize::MAX, usize::MAX), usize::MAX / 2);
    assert_eq!(get_offset(usize::MAX, 1, usize::MAX), 1);
    assert_eq!(get_offset(usize::MAX, 0, 7), usize::MAX % 7);
}

#[test]
fn neighbors_wrap_at_the_far_corner() {
    let neighbors = get_neighbor_cells((9, 9), (10, 10));
    assert_eq!(
        neighbors,
        vec![(8, 8), (8, 9), (8, 0), (9, 8), (9, 0), (0, 8), (0, 9), (0, 0)]
    );
}

#[test]
fn neighbors_on_an_oblong_grid_wrap_each_coordinate_on_its_own() {
    let neighbors = get_neighbor_cells((0, 6), (3, 7));
    assert_eq!(
        neighbors,
        vec![(2, 5), (2, 6), (2, 0), (0, 5), (0, 0), (1, 5), (1, 6), (1, 0)]
    );
}

#[test]
fn neighbors_are_eight_distinct_cells_inside_the_grid() {
    let shape = (5, 7);
    for row in 0..shape.0 {
        for column in 0..shape.1 {
            let neighbors = get_neighbor_cells((row, column), shape);
            assert_eq!(neighbors.len(), 8);
            for (index, neighbor) in neighbors.iter().enumerate() {
                assert!(neighbor.0 < shape.0 && neighbor.1 < shape.1);
                assert_ne!(*neighbor, (row, column));
                for other in &neighbors[index + 1..] {
                    assert_ne!(neighbor, other);
                }
            }
        }
    }
}

#[test]
fn neighbors_are_distinct_on_the_smallest_grid_that_allows_it() {
    let neighbors = get_neighbor_cells((1, 1), (3, 3));
    assert_eq!(
        neighbors,
        vec![(0, 0), (0, 1), (0, 2), (1, 0), (1, 2), (2, 0), (2, 1), (2, 2)]
    );
}

#[test]
fn neighbors_on_a_single_cell_grid_are_the_cell_itself() {
    let neighbors = get_neighbor_cells((0, 0), (1, 1));
    assert_eq!(neighbors, vec![(0, 0); 8]);
}

#[test]
fn neighbors_repeat_on_a_grid_of_two_rows() {
    let neighbors = get_neighbor_cells((0, 1), (2, 4));
    assert_eq!(
        neighbors,
        vec![(1, 0), (1, 1), (1, 2), (0, 0), (0, 2), (1, 0), (1, 1), (1, 2)]
    );
}

#[test]
fn neighbors_of_a_cell_outside_the_grid_lie_inside() {
    let neighbors = get_neighbor_cells((7, 12), (3, 5));
    assert_eq!(
        neighbors,
        vec![(0, 1), (0, 2), (0, 3), (1, 1), (1, 3), (2, 1), (2, 2), (2, 3)]
    );
}
