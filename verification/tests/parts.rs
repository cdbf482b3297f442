use bevy_urdf::parts::{plan_robot_parts, GeometryGroup, PartPlan, Placement, RotorLayout};

fn group(body_index: usize, geometry_count: usize, visual_count: usize, t: bool) -> GeometryGroup {
    GeometryGroup { body_index, geometry_count, visual_count, has_link_transform: t }
}

#[test]
fn parts_without_drone_are_placed_at_links() {
    let groups = vec![group(0, 2, 2, true), group(1, 1, 1, false), group(2, 3, 1, true)];
    let plan = plan_robot_parts(&groups, &None);
    assert_eq!(
        plan,
        vec![
            PartPlan { body_index: 0, geometry_index: 0, placement: Placement::AtLink },
            PartPlan { body_index: 0, geometry_index: 1, placement: Placement::AtLink },
            PartPlan { body_index: 2, geometry_index: 0, placement: Placement::AtLink },
        ]
    );
}

#[test]
fn drone_rotors_numbered_in_order() {
    let groups = vec![
        group(0, 1, 1, true),
        group(1, 1, 1, true),
        group(2, 2, 2, true),
        group(3, 1, 1, true),
    ];
    let rotors = Some(RotorLayout { rotor_body_indices: vec![3, 1, 2], rotor_position_count: 2 });
    let plan = plan_robot_parts(&groups, &rotors);
    let placements: Vec<Placement> = plan.iter().map(|p| p.placement).collect();
    assert_eq!(
        placements,
        vec![
            Placement::Unplaced,
            Placement::Rotor { rotor_index: 0, at_rotor_position: true },
            Placement::Rotor { rotor_index: 1, at_rotor_position: true },
            Placement::Rotor { rotor_index: 2, at_rotor_position: false },
            Placement::Rotor { rotor_index: 3, at_rotor_position: false },
        ]
    );
}

#[test]
fn empty_robot_has_no_parts() {
    assert!(plan_robot_parts(&vec![], &None).is_empty());
    let rotors = Some(RotorLayout { rotor_body_indices: vec![], rotor_position_count: 0 });
    assert!(plan_robot_parts(&vec![group(0, 0, 4, true)], &rotors).is_empty());
}
