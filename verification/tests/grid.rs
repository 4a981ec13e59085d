use gpu_life::grid::Grid;

fn grid_with(width: usize, height: usize, live: &[(usize, usize)]) -> Grid {
    let mut cells = vec![0u8; width * height];
    for &(x, y) in live {
        cells[y * width + x] = 255;
    }
    Grid::new(width, height, cells).unwrap()
}

fn live_cells(grid: &Grid) -> Vec<(usize, usize)> {
    let mut found = Vec::new();
    for y in 0..grid.height() {
        for x in 0..grid.width() {
            if grid.get(x, y).unwrap() > 127 {
                found.push((x, y));
            }
        }
    }
    found
}

#[test]
fn new_wants_one_byte_per_cell() {
    assert!(Grid::new(3, 2, vec![0; 6]).is_some());
    assert!(Grid::new(3, 2, vec![0; 5]).is_none());
    assert!(Grid::new(3, 2, vec![0; 7]).is_none());
    assert!(Grid::new(0, 0, vec![]).is_some());
    assert!(Grid::new(0, 5, vec![]).is_some());
    assert!(Grid::new(usize::MAX, 2, vec![0; 4]).is_none());
}

#[test]
fn accessors_report_the_grid() {
    let grid = Grid::new(3, 2, vec![1, 2, 3, 4, 5, 6]).unwrap();
    assert_eq!(grid.width(), 3);
    assert_eq!(grid.height(), 2);
    assert_eq!(grid.cells(), &vec![1, 2, 3, 4, 5, 6]);
    assert_eq!(grid.get(0, 0), Some(1));
    assert_eq!(grid.get(2, 0), Some(3));
    assert_eq!(grid.get(0, 1), Some(4));
    assert_eq!(grid.get(2, 1), Some(6));
    assert_eq!(grid.get(3, 0), None);
    assert_eq!(grid.get(0, 2), None);
}

#[test]
fn neighbours_wrap_around_the_edges() {
    let grid = grid_with(5, 4, &[(0, 0)]);
    assert_eq!(grid.neighbours(4, 0), Some(1));
    assert_eq!(grid.neighbours(0, 3), Some(1));
    assert_eq!(grid.neighbours(4, 3), Some(1));
    assert_eq!(grid.neighbours(1, 1), Some(1));
    assert_eq!(grid.neighbours(0, 0), Some(0));
    assert_eq!(grid.neighbours(2, 2), Some(0));
    assert_eq!(grid.neighbours(5, 0), None);
    assert_eq!(grid.neighbours(0, 4), None);
}

#[test]
fn last_column_sees_column_zero() {
    let grid = grid_with(6, 3, &[(5, 1)]);
    assert_eq!(grid.neighbours(0, 0), Some(1));
    assert_eq!(grid.neighbours(0, 1), Some(1));
    assert_eq!(grid.neighbours(0, 2), Some(1));
    assert_eq!(grid.neighbours(1, 1), Some(0));
}

#[test]
fn corner_block_survives_on_the_torus() {
    let corners = [(0, 0), (4, 0), (0, 3), (4, 3)];
    let grid = grid_with(5, 4, &corners);
    for &(x, y) in &corners {
        assert_eq!(grid.neighbours(x, y), Some(3));
    }
    let next = grid.step();
    let mut expected = corners.to_vec();
    expected.sort_by_key(|&(x, y)| (y, x));
    assert_eq!(live_cells(&next), expected);
    for &(x, y) in &corners {
        assert_eq!(next.get(x, y), Some(255));
    }
    assert_eq!(next.cells().iter().filter(|&&t| t == 0).count(), 16);
}

#[test]
fn block_is_a_fixed_point_on_three_by_three() {
    let block = [(0, 0), (1, 0), (0, 1), (1, 1)];
    let grid = grid_with(3, 3, &block);
    let next = grid.step();
    assert_eq!(next.width(), 3);
    assert_eq!(next.height(), 3);
    assert_eq!(next.cells(), &vec![255, 255, 0, 255, 255, 0, 0, 0, 0]);
    assert_eq!(live_cells(&next), vec![(0, 0), (1, 0), (0, 1), (1, 1)]);
    let again = next.step();
    assert_eq!(again.cells(), next.cells());
}

#[test]
fn lone_cell_dies_and_fades() {
    let grid = grid_with(3, 3, &[(1, 1)]);
    let next = grid.step();
    assert_eq!(next.cells(), &vec![0, 0, 0, 0, 38, 0, 0, 0, 0]);
    let later = next.step();
    assert_eq!(later.cells(), &vec![0; 9]);
}

#[test]
fn blinker_oscillates() {
    let grid = grid_with(5, 5, &[(1, 2), (2, 2), (3, 2)]);
    let next = grid.step();
    assert_eq!(live_cells(&next), vec![(2, 1), (2, 2), (2, 3)]);
    assert_eq!(next.get(2, 1), Some(153));
    assert_eq!(next.get(2, 2), Some(255));
    assert_eq!(next.get(2, 3), Some(153));
    assert_eq!(next.get(1, 2), Some(38));
    assert_eq!(next.get(3, 2), Some(38));
    let back = next.step();
    assert_eq!(live_cells(&back), vec![(1, 2), (2, 2), (3, 2)]);
}

#[test]
fn single_cell_torus_counts_itself_eight_times() {
    let grid = grid_with(1, 1, &[(0, 0)]);
    assert_eq!(grid.neighbours(0, 0), Some(8));
    assert_eq!(grid.step().cells(), &vec![38]);
}

#[test]
fn two_by_two_torus_counts_each_neighbour_twice() {
    let grid = grid_with(2, 2, &[(0, 0), (1, 0), (0, 1), (1, 1)]);
    assert_eq!(grid.neighbours(0, 0), Some(8));
    assert_eq!(grid.step().cells(), &vec![38, 38, 38, 38]);
}

#[test]
fn empty_grid_steps_to_itself() {
    let grid = Grid::new(0, 0, vec![]).unwrap();
    let next = grid.step();
    assert_eq!(next.width(), 0);
    assert_eq!(next.height(), 0);
    assert!(next.cells().is_empty());
}

#[test]
fn fade_levels_count_as_their_liveness() {
    let grid = Grid::new(3, 3, vec![153, 153, 38, 153, 128, 127, 0, 38, 0]).unwrap();
    assert_eq!(grid.neighbours(1, 1), Some(3));
    assert_eq!(grid.neighbours(2, 2), Some(4));
    let next = grid.step();
    assert_eq!(next.get(1, 1), Some(255));
    assert_eq!(next.get(2, 2), Some(0));
}

#[test]
fn display_replicates_cells_in_blocks() {
    let grid = Grid::new(2, 2, vec![10, 20, 30, 40]).unwrap();
    for py in 0..8 {
        for px in 0..8 {
            let expected = [10u8, 20, 30, 40][(py / 4) * 2 + px / 4];
            assert_eq!(grid.sample(px, py, 4), Some(expected));
        }
    }
    assert_eq!(grid.sample(8, 0, 4), None);
    assert_eq!(grid.sample(0, 8, 4), None);
    assert_eq!(grid.sample(1, 1, 1), Some(40));
    assert_eq!(grid.sample(2, 0, 1), None);
}
