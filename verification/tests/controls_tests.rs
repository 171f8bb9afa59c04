use particle_life::controls::{
    camera_direction, regeneration_steps, speed_change, MoveKeys, RegenerationKeys,
    RegenerationStep, SpeedChange,
};

#[test]
fn camera_direction_combines_keys() {
    let none = MoveKeys { left: false, right: false, up: false, down: false };
    assert_eq!(camera_direction(none), (0, 0));
    assert_eq!(camera_direction(MoveKeys { left: true, ..none }), (-1, 0));
    assert_eq!(camera_direction(MoveKeys { right: true, up: true, ..none }), (1, 1));
    assert_eq!(camera_direction(MoveKeys { down: true, ..none }), (0, -1));
}

#[test]
fn opposite_camera_keys_cancel() {
    let all = MoveKeys { left: true, right: true, up: true, down: true };
    assert_eq!(camera_direction(all), (0, 0));
}

#[test]
fn speed_change_prefers_faster() {
    assert_eq!(speed_change(true, false), SpeedChange::Double);
    assert_eq!(speed_change(true, true), SpeedChange::Double);
    assert_eq!(speed_change(false, true), SpeedChange::Halve);
    assert_eq!(speed_change(false, false), SpeedChange::Keep);
}

#[test]
fn regeneration_steps_in_order() {
    let keys = RegenerationKeys { reset: true, matrix: true, constants: true };
    assert_eq!(
        regeneration_steps(keys),
        vec![
            RegenerationStep::Reset,
            RegenerationStep::RegenerateMatrix,
            RegenerationStep::RegenerateConstants
        ]
    );
    let none = RegenerationKeys { reset: false, matrix: false, constants: false };
    assert!(regeneration_steps(none).is_empty());
    let t = RegenerationKeys { constants: true, ..none };
    assert_eq!(regeneration_steps(t), vec![RegenerationStep::RegenerateConstants]);
}
