use cuborum::grid::{VoxelGrid, PATTERN_COLOR};
use cuborum::voxel::Voxel;

fn solid_cells(grid: &VoxelGrid) -> usize {
    grid.data().iter().filter(|v| v.voxel_type == 1).count()
}

#[test]
fn new_grid_holds_size_cubed_empty_voxels() {
    let grid = VoxelGrid::new(4);
    assert_eq!(grid.size(), 4);
    assert_eq!(grid.data().len(), 64);
    assert!(grid.data().iter().all(|v| *v == Voxel::empty()));
}

#[test]
fn new_grid_of_size_zero_is_empty() {
    let grid = VoxelGrid::new(0);
    assert_eq!(grid.size(), 0);
    assert!(grid.data().is_empty());
    assert!(!grid.in_bounds(0, 0, 0));
}

#[test]
fn get_index_is_z_major_then_y_then_x() {
    let grid = VoxelGrid::new(16);
    assert_eq!(grid.get_index(0, 0, 0), 0);
    assert_eq!(grid.get_index(1, 0, 0), 1);
    assert_eq!(grid.get_index(0, 1, 0), 16);
    assert_eq!(grid.get_index(0, 0, 1), 256);
    assert_eq!(grid.get_index(3, 5, 7), 7 * 256 + 5 * 16 + 3);
    assert_eq!(grid.get_index(15, 15, 15), 4095);
}

#[test]
fn get_index_is_a_bijection_onto_the_store() {
    let n = 5;
    let grid = VoxelGrid::new(n);
    let mut seen = vec![false; n * n * n];
    for z in 0..n {
        for y in 0..n {
            for x in 0..n {
                let index = grid.get_index(x, y, z);
                assert!(index < n * n * n);
                assert!(!seen[index]);
                seen[index] = true;
            }
        }
    }
    assert!(seen.iter().all(|s| *s));
}

#[test]
fn in_bounds_tells_cells_from_the_outside() {
    let grid = VoxelGrid::new(3);
    assert!(grid.in_bounds(0, 0, 0));
    assert!(grid.in_bounds(2, 2, 2));
    assert!(!grid.in_bounds(3, 0, 0));
    assert!(!grid.in_bounds(0, 3, 0));
    assert!(!grid.in_bounds(0, 0, 3));
    assert!(!grid.in_bounds(usize::MAX, 0, 0));
}

#[test]
fn set_writes_one_cell_and_no_other() {
    let mut grid = VoxelGrid::new(3);
    let voxel = Voxel::new(1, 10, 20, 30, 40);
    grid.set(1, 2, 0, voxel);
    assert_eq!(*grid.get(1, 2, 0), voxel);
    assert_eq!(grid.data()[2 * 3 + 1], voxel);
    for z in 0..3 {
        for y in 0..3 {
            for x in 0..3 {
                if (x, y, z) != (1, 2, 0) {
                    assert_eq!(*grid.get(x, y, z), Voxel::empty());
                }
            }
        }
    }
}

#[test]
fn set_overwrites_what_was_there() {
    let mut grid = VoxelGrid::new(2);
    grid.set(1, 1, 1, Voxel::new(1, 1, 1, 1, 1));
    grid.set(1, 1, 1, Voxel::new(2, 9, 9, 9, 9));
    assert_eq!(*grid.get(1, 1, 1), Voxel::new(2, 9, 9, 9, 9));
    assert_eq!(grid.size(), 2);
    assert_eq!(grid.data().len(), 8);
}

#[test]
fn test_pattern_fills_the_lower_half() {
    let mut grid = VoxelGrid::new(4);
    grid.fill_with_test_pattern();
    for z in 0..4 {
        for y in 0..4 {
            for x in 0..4 {
                let expected = if y < 2 {
                    Voxel { voxel_type: 1, color: PATTERN_COLOR }
                } else {
                    Voxel::empty()
                };
                assert_eq!(*grid.get(x, y, z), expected);
            }
        }
    }
}

#[test]
fn test_pattern_marks_n_squared_times_half_n_voxels() {
    for n in 0..=9usize {
        let mut grid = VoxelGrid::new(n);
        grid.fill_with_test_pattern();
        assert_eq!(solid_cells(&grid), n * n * (n / 2));
    }
    let mut grid = VoxelGrid::new(16);
    grid.fill_with_test_pattern();
    assert_eq!(solid_cells(&grid), 2048);
}

#[test]
fn test_pattern_of_odd_size_leaves_the_middle_layer() {
    let mut grid = VoxelGrid::new(3);
    grid.fill_with_test_pattern();
    assert_eq!(solid_cells(&grid), 9);
    assert_eq!(grid.get(0, 0, 0).voxel_type, 1);
    assert_eq!(grid.get(0, 1, 0).voxel_type, 0);
    assert_eq!(grid.get(0, 2, 0).voxel_type, 0);
}

#[test]
fn test_pattern_of_size_one_marks_nothing() {
    let mut grid = VoxelGrid::new(1);
    grid.fill_with_test_pattern();
    assert_eq!(*grid.get(0, 0, 0), Voxel::empty());
}

#[test]
fn test_pattern_twice_is_the_pattern_once() {
    let mut once = VoxelGrid::new(6);
    once.fill_with_test_pattern();
    let mut twice = VoxelGrid::new(6);
    twice.fill_with_test_pattern();
    twice.fill_with_test_pattern();
    assert_eq!(once.data(), twice.data());
    assert_eq!(once.size(), twice.size());
}

#[test]
fn test_pattern_keeps_the_upper_half_as_it_was() {
    let mut grid = VoxelGrid::new(4);
    let marker = Voxel::new(5, 1, 2, 3, 4);
    grid.set(0, 3, 0, marker);
    grid.set(2, 0, 1, marker);
    grid.fill_with_test_pattern();
    assert_eq!(*grid.get(0, 3, 0), marker);
    assert_eq!(*grid.get(2, 0, 1), Voxel { voxel_type: 1, color: 128 });
}

#[test]
fn pattern_colour_is_128() {
    assert_eq!(PATTERN_COLOR, 128);
    assert_eq!(Voxel { voxel_type: 1, color: PATTERN_COLOR }.unpack_color(), [0, 0, 0, 128]);
}
