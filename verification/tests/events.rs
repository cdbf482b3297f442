use bevy_urdf::events::{
    descriptor_source, handle_wait_robot_loaded, robot_loaded, wait_robot_loaded, DescriptorSource,
};
use bevy_urdf::loader::{loader_mesh_dir, loader_settings};
use bevy_urdf::{LoadRobot, RapierOption, RobotType, RpyAssetLoaderSettings, SpawnRobot};

fn spawn_event() -> SpawnRobot<u32, u64, &'static str, i8> {
    SpawnRobot {
        handle: 7,
        mesh_dir: "meshes/quad".to_string(),
        parent_entity: Some(42),
        robot_type: RobotType::Drone,
        uav_descriptor: Some("quad"),
        uuv_descriptor: None,
    }
}

#[test]
fn waiting_spawn_request_comes_back_unchanged() {
    let w = wait_robot_loaded(spawn_event());
    assert_eq!(w.handle, 7);
    assert_eq!(w.mesh_dir, "meshes/quad");
    assert_eq!(w.parent_entity, Some(42));
    assert_eq!(w.robot_type, RobotType::Drone);
    let s = handle_wait_robot_loaded(w);
    let e = spawn_event();
    assert_eq!(s.handle, e.handle);
    assert_eq!(s.mesh_dir, e.mesh_dir);
    assert_eq!(s.parent_entity, e.parent_entity);
    assert_eq!(s.robot_type, e.robot_type);
    assert_eq!(s.uav_descriptor, e.uav_descriptor);
    assert_eq!(s.uuv_descriptor, e.uuv_descriptor);
}

fn load_event(mesh_dir: &str, marker: Option<u32>) -> LoadRobot<u16, (i32, i32, i32), u8, u8> {
    LoadRobot {
        robot_type: RobotType::Uuv,
        urdf_path: "robots/uuv.urdf".to_string(),
        mesh_dir: mesh_dir.to_string(),
        rapier_options: RapierOption {
            interaction_groups: Some(3),
            translation_shift: Some((1, 2, 3)),
            create_colliders_from_visual_shapes: true,
            create_colliders_from_collision_shapes: false,
            make_roots_fixed: true,
        },
        uav_descriptor: None,
        uuv_descriptor: Some(9),
        marker,
    }
}

#[test]
fn robot_loaded_keeps_marker_and_strips_assets() {
    let loaded = robot_loaded(load_event("assets/uuv/meshes", Some(11)), "handle-1");
    assert_eq!(loaded.handle, "handle-1");
    assert_eq!(loaded.mesh_dir, "uuv/meshes");
    assert_eq!(loaded.marker, Some(11));
    assert_eq!(loaded.robot_type, RobotType::Uuv);
    assert_eq!(loaded.uav_descriptor, None);
    assert_eq!(loaded.uuv_descriptor, Some(9));
}

#[test]
fn robot_loaded_without_marker() {
    let loaded = robot_loaded(load_event("uuv", None), 0u8);
    assert_eq!(loaded.marker, None);
    assert_eq!(loaded.mesh_dir, "uuv");
}

#[test]
fn loader_settings_copy_options() {
    let event = load_event("assets/m", None);
    let s: RpyAssetLoaderSettings<u16, (i32, i32, i32)> =
        loader_settings(&event.rapier_options, event.mesh_dir.clone());
    assert_eq!(s.mesh_dir, Some("assets/m".to_string()));
    assert_eq!(s.interaction_groups, Some(3));
    assert_eq!(s.translation_shift, Some((1, 2, 3)));
    assert!(s.create_colliders_from_visual_shapes);
    assert!(!s.create_colliders_from_collision_shapes);
    assert!(s.make_roots_fixed);
}

#[test]
fn loader_mesh_dir_defaults_to_current_dir() {
    let mut s: RpyAssetLoaderSettings<u8, u8> = RpyAssetLoaderSettings {
        mesh_dir: None,
        interaction_groups: None,
        translation_shift: None,
        create_colliders_from_visual_shapes: false,
        create_colliders_from_collision_shapes: true,
        make_roots_fixed: false,
    };
    assert_eq!(loader_mesh_dir(&s), "./");
    s.mesh_dir = Some("meshes".to_string());
    assert_eq!(loader_mesh_dir(&s), "meshes");
}

#[test]
fn descriptor_sources() {
    assert_eq!(descriptor_source(RobotType::Drone, RobotType::Drone, false), DescriptorSource::Extracted);
    assert_eq!(descriptor_source(RobotType::Drone, RobotType::Drone, true), DescriptorSource::Given);
    assert_eq!(descriptor_source(RobotType::Uuv, RobotType::Drone, true), DescriptorSource::Given);
    assert_eq!(descriptor_source(RobotType::Uuv, RobotType::Drone, false), DescriptorSource::Absent);
    assert_eq!(descriptor_source(RobotType::Uuv, RobotType::Uuv, false), DescriptorSource::Extracted);
    assert_eq!(descriptor_source(RobotType::NotDrone, RobotType::Uuv, false), DescriptorSource::Absent);
}

#[test]
fn robot_loaded_removes_every_assets_match() {
    let loaded = robot_loaded(load_event("x/assets/y/assets/", None), 1u8);
    assert_eq!(loaded.mesh_dir, "x/y/");
}
