use bevy_urdf::control::{assign_motor_velocities, enough_velocities};

#[test]
fn motors_take_velocities_in_order() {
    let motorized = vec![false, true, true, false, true];
    assert!(enough_velocities(&motorized, 3));
    assert_eq!(
        assign_motor_velocities(&motorized, 3),
        vec![None, Some(0), Some(1), None, Some(2)]
    );
}

#[test]
fn extra_velocities_are_unused() {
    let motorized = vec![true, false];
    assert_eq!(assign_motor_velocities(&motorized, 4), vec![Some(0), None]);
}

#[test]
fn no_velocities_drive_nothing() {
    let motorized = vec![true, true];
    assert!(enough_velocities(&motorized, 0));
    assert_eq!(assign_motor_velocities(&motorized, 0), vec![None, None]);
}

#[test]
fn too_few_velocities_are_refused() {
    let motorized = vec![true, true, true];
    assert!(!enough_velocities(&motorized, 2));
    assert!(enough_velocities(&vec![false, false], 1));
}
