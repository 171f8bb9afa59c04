use particle_life::palette::{take_colors, PALETTE_LEN};
use particle_life::system::{ParticleSystem, DEFAULT_COLOR_COUNT};

#[test]
fn new_system_has_fifty_neutral_kinds() {
    let s = ParticleSystem::new(0.0f32);
    assert_eq!(s.color_count(), DEFAULT_COLOR_COUNT);
    assert_eq!(s.color_count(), 50);
    assert_eq!(s.colors(), &take_colors(50));
    assert_eq!(s.get_behavior(0, 0), 0.0);
    assert_eq!(s.get_behavior(49, 12), 0.0);
}

#[test]
fn set_behavior_then_get_behavior() {
    let mut s = ParticleSystem::new(0.0f32);
    s.set_behavior(3, 4, 0.5);
    assert_eq!(s.get_behavior(3, 4), 0.5);
    assert_eq!(s.get_behavior(4, 3), 0.0);
}

#[test]
fn regenerate_matrix_resets_behaviors_and_keeps_colors() {
    let mut s = ParticleSystem::new(0i32);
    s.set_behavior(3, 4, 5);
    let colors = s.colors().clone();
    s.regenerate_matrix(0);
    assert_eq!(s.get_behavior(3, 4), 0);
    assert_eq!(s.colors(), &colors);
}

#[test]
fn set_color_count_resizes_the_matrix() {
    let mut s = ParticleSystem::new(0i32);
    s.set_behavior(0, 0, 1);
    s.set_color_count(100, 0);
    assert_eq!(s.color_count(), 100);
    assert_eq!(s.get_behavior(99, 99), 0);
    assert_eq!(s.get_behavior(0, 0), 0);
    s.set_color_count(1, 2);
    assert_eq!(s.color_count(), 1);
    assert_eq!(s.get_behavior(0, 0), 2);
    s.set_color_count(1000, 0);
    assert_eq!(s.color_count(), PALETTE_LEN);
    assert_eq!(s.get_behavior(PALETTE_LEN - 1, 0), 0);
}
