use particle_life::spatial::SpatialGrid;

fn touches(a: (i32, i32), b: (i32, i32)) -> bool {
    (a.0 - b.0).abs() <= 1 && (a.1 - b.1).abs() <= 1
}

#[test]
fn neighbors_visit_cells_in_order() {
    let cells = vec![(0, 0), (1, 1), (-1, -1), (0, 0), (5, 5), (0, 1), (-1, 1)];
    let grid = SpatialGrid::build(&cells);
    // cell order: (-1,-1), (-1,0), (-1,1), (0,-1), (0,0), (0,1), (1,-1), (1,0), (1,1)
    assert_eq!(grid.neighbors((0, 0)), vec![2, 6, 0, 3, 5, 1]);
    assert_eq!(grid.neighbors((5, 5)), vec![4]);
    assert_eq!(grid.neighbors((3, 3)), Vec::<usize>::new());
}

#[test]
fn neighbors_are_exactly_the_touching_particles() {
    let mut cells = Vec::new();
    for k in 0..200i32 {
        cells.push(((k * 7) % 11 - 5, (k * 13) % 9 - 4));
    }
    let grid = SpatialGrid::build(&cells);
    for x in -7..=7 {
        for y in -6..=6 {
            let found = grid.neighbors((x, y));
            let mut sorted = found.clone();
            sorted.sort();
            sorted.dedup();
            assert_eq!(sorted.len(), found.len());
            let expected: Vec<usize> =
                (0..cells.len()).filter(|&k| touches(cells[k], (x, y))).collect();
            assert_eq!(sorted, expected);
        }
    }
}

#[test]
fn neighborhood_is_symmetric() {
    let cells = vec![(0, 0), (1, 1), (2, 2), (0, 2), (-3, 0)];
    let grid = SpatialGrid::build(&cells);
    for i in 0..cells.len() {
        for j in 0..cells.len() {
            assert_eq!(
                grid.neighbors(cells[i]).contains(&j),
                grid.neighbors(cells[j]).contains(&i)
            );
        }
    }
}

#[test]
fn empty_grid_has_no_neighbors() {
    let grid = SpatialGrid::build(&Vec::new());
    assert!(grid.neighbors((0, 0)).is_empty());
}

#[test]
fn far_cells_near_the_edges() {
    let cells = vec![(i32::MAX - 1, i32::MIN + 1), (i32::MAX - 2, i32::MIN + 2), (0, 0)];
    let grid = SpatialGrid::build(&cells);
    assert_eq!(grid.neighbors((i32::MAX - 1, i32::MIN + 1)), vec![1, 0]);
}
