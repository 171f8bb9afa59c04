use particle_life::layout::{grid_side, spawn_slots, SpawnSlot};

#[test]
fn grid_side_values() {
    assert_eq!(grid_side(0), 0);
    assert_eq!(grid_side(1), 1);
    assert_eq!(grid_side(2), 2);
    assert_eq!(grid_side(4), 2);
    assert_eq!(grid_side(5), 3);
    assert_eq!(grid_side(5000), 71);
    assert_eq!(grid_side(19881), 141);
    assert_eq!(grid_side(20000), 142);
}

#[test]
fn grid_side_matches_float_square_root_on_slider_range() {
    for n in 0usize..=20000 {
        let expected = (n as f32).sqrt().ceil() as usize;
        assert_eq!(grid_side(n), expected, "count {}", n);
    }
}

#[test]
fn grid_side_is_monotone() {
    let mut previous = 0;
    for n in 0usize..3000 {
        let g = grid_side(n);
        assert!(g >= previous);
        assert!(g * g >= n);
        previous = g;
    }
}

#[test]
fn spawn_slots_small_example() {
    let slots = spawn_slots(5, 2);
    assert_eq!(
        slots,
        vec![
            SpawnSlot { row: 0, col: 0, color_id: 0 },
            SpawnSlot { row: 0, col: 1, color_id: 1 },
            SpawnSlot { row: 0, col: 2, color_id: 0 },
            SpawnSlot { row: 1, col: 0, color_id: 1 },
            SpawnSlot { row: 1, col: 1, color_id: 0 },
        ]
    );
}

#[test]
fn spawn_slots_follows_the_nested_loop() {
    for &(count, n_colors) in &[(0usize, 0usize), (1, 1), (7, 3), (100, 50), (5000, 50), (1234, 7)] {
        let g = grid_side(count);
        let mut expected = Vec::new();
        for i in 0..g {
            for j in 0..g {
                if i * g + j >= count {
                    break;
                }
                expected.push(SpawnSlot { row: i, col: j, color_id: (i * g + j) % n_colors });
            }
        }
        assert_eq!(spawn_slots(count, n_colors), expected);
    }
}

#[test]
fn spawn_slots_are_distinct_and_in_grid() {
    let count = 5000;
    let slots = spawn_slots(count, 50);
    let g = grid_side(count);
    let mut seen = std::collections::HashSet::new();
    for (k, s) in slots.iter().enumerate() {
        assert!(s.row < g && s.col < g && s.color_id < 50);
        assert_eq!(s.row * g + s.col, k);
        assert!(seen.insert((s.row, s.col)));
    }
    assert_eq!(slots.len(), count);
}
