use bevy_urdf::geometry::{ColorChoice, GeometrySelection, MaterialInfo};
use bevy_urdf::{extract_robot_geometry, get_color};

fn mat(name: &str, has_color: bool) -> MaterialInfo {
    MaterialInfo { name: name.to_string(), has_color }
}

#[test]
fn selects_first_visual_last_pose_single_collider() {
    let res = extract_robot_geometry(&vec![0, 1, 3], &vec![1, 0, 2, 5]);
    assert_eq!(res.len(), 3);
    assert_eq!(
        res[0],
        GeometrySelection { index: 0, geometry: None, visual_pose: None, collider: Some(0) }
    );
    assert_eq!(
        res[1],
        GeometrySelection { index: 1, geometry: Some(0), visual_pose: Some(0), collider: None }
    );
    assert_eq!(
        res[2],
        GeometrySelection { index: 2, geometry: Some(0), visual_pose: Some(2), collider: None }
    );
}

#[test]
fn no_links_no_selection() {
    assert!(extract_robot_geometry(&vec![], &vec![]).is_empty());
}

#[test]
fn own_colour_first() {
    let materials = vec![mat("red", true)];
    assert_eq!(get_color(&Some(mat("red", true)), &materials), ColorChoice::Own);
}

#[test]
fn named_colour_from_last_material_of_that_name() {
    let materials = vec![mat("blue", true), mat("red", true), mat("blue", true)];
    assert_eq!(get_color(&Some(mat("blue", false)), &materials), ColorChoice::Named(2));
    assert_eq!(get_color(&Some(mat("red", false)), &materials), ColorChoice::Named(1));
}

#[test]
fn last_material_without_colour_gives_default() {
    let materials = vec![mat("blue", true), mat("blue", false)];
    assert_eq!(get_color(&Some(mat("blue", false)), &materials), ColorChoice::Fallback);
}

#[test]
fn unknown_or_missing_material_gives_default() {
    let materials = vec![mat("blue", true)];
    assert_eq!(get_color(&Some(mat("green", false)), &materials), ColorChoice::Fallback);
    assert_eq!(get_color(&None, &materials), ColorChoice::Fallback);
    assert_eq!(get_color(&Some(mat("blue", false)), &vec![]), ColorChoice::Fallback);
}
