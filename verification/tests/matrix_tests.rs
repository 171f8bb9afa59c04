use particle_life::matrix::BehaviorMatrix;

#[test]
fn filled_matrix_is_uniform() {
    let m = BehaviorMatrix::filled(3, 0i32);
    assert_eq!(m.size(), 3);
    for i in 0..3 {
        for j in 0..3 {
            assert_eq!(m.get(i, j), 0);
        }
    }
}

#[test]
fn set_then_get_reads_back_and_leaves_the_rest() {
    let mut m = BehaviorMatrix::filled(4, 1i64);
    m.set(1, 2, 7);
    m.set(2, 1, -3);
    assert_eq!(m.get(1, 2), 7);
    assert_eq!(m.get(2, 1), -3);
    for i in 0..4 {
        for j in 0..4 {
            if (i, j) != (1, 2) && (i, j) != (2, 1) {
                assert_eq!(m.get(i, j), 1);
            }
        }
    }
    m.set(1, 2, 9);
    assert_eq!(m.get(1, 2), 9);
    assert_eq!(m.size(), 4);
}

#[test]
fn empty_matrix() {
    let m = BehaviorMatrix::filled(0, 0u8);
    assert_eq!(m.size(), 0);
}
