use bevy_urdf::sensors::{group_parts_by_robot, parts_of_robot};

#[test]
fn parts_grouped_by_parent_index() {
    let groups = group_parts_by_robot(&vec![5, 9, 7], &vec![9, 5, 9, 1, 5]);
    assert_eq!(groups, vec![vec![1, 4], vec![0, 2], vec![]]);
}

#[test]
fn parts_of_robot_in_order() {
    assert_eq!(parts_of_robot(3, &vec![3, 3, 2, 3]), vec![0, 1, 3]);
    assert!(parts_of_robot(3, &vec![]).is_empty());
}
