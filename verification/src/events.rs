//! The events by which robots are loaded, spawned and despawned, and the
//! decisions taken on them.
//!
//! The values that only the game engine and the physics engine understand
//! (asset handles, entities, collision groups, translations, vehicle
//! descriptors) are type parameters here: the decisions pass them on
//! untouched, and the engine side fills them in.

use vstd::prelude::*;

use crate::paths::assets_prefix;
use crate::robot_type::RobotType;
use crate::text::{remove_matches, without_matches};

verus! {

/// Asks to spawn the robot of a loaded (or loading) URDF asset.
pub struct SpawnRobot<H, E, U, V> {
    pub handle: H,
    pub mesh_dir: String,
    pub parent_entity: Option<E>,
    pub robot_type: RobotType,
    pub uav_descriptor: Option<U>,
    pub uuv_descriptor: Option<V>,
}

/// A spawn request put off because its asset was not loaded yet.
pub struct WaitRobotLoaded<H, E, U, V> {
    pub handle: H,
    pub mesh_dir: String,
    pub parent_entity: Option<E>,
    pub robot_type: RobotType,
    pub uav_descriptor: Option<U>,
    pub uuv_descriptor: Option<V>,
}

/// Asks to despawn every robot spawned from an asset.
pub struct DespawnRobot<H> {
    pub handle: H,
}

/// Tells that the robot of an asset was spawned.
pub struct RobotSpawned<H> {
    pub handle: H,
}

/// Options for building the physics bodies of a robot.
pub struct RapierOption<G, T> {
    pub interaction_groups: Option<G>,
    pub translation_shift: Option<T>,
    pub create_colliders_from_visual_shapes: bool,
    pub create_colliders_from_collision_shapes: bool,
    pub make_roots_fixed: bool,
}

/// Asks to load a URDF file.
pub struct LoadRobot<G, T, U, V> {
    pub robot_type: RobotType,
    pub urdf_path: String,
    pub mesh_dir: String,
    pub rapier_options: RapierOption<G, T>,
    pub uav_descriptor: Option<U>,
    pub uuv_descriptor: Option<V>,
    /// Keeps the causality of the `LoadRobot -> RobotLoaded` event chain.
    pub marker: Option<u32>,
}

/// Tells that loading of a URDF file has started, with the handle of its asset.
pub struct RobotLoaded<H, U, V> {
    pub handle: H,
    pub mesh_dir: String,
    pub marker: Option<u32>,
    pub robot_type: RobotType,
    pub uav_descriptor: Option<U>,
    pub uuv_descriptor: Option<V>,
}

/// The waiting event that a spawn request becomes while its asset is not loaded.
pub open spec fn waiting_for<H, E, U, V>(event: SpawnRobot<H, E, U, V>) -> WaitRobotLoaded<H, E, U, V> {
    WaitRobotLoaded {
        handle: event.handle,
        mesh_dir: event.mesh_dir,
        parent_entity: event.parent_entity,
        robot_type: event.robot_type,
        uav_descriptor: event.uav_descriptor,
        uuv_descriptor: event.uuv_descriptor,
    }
}

/// The spawn request that a waiting event is sent again as.
pub open spec fn respawn_of<H, E, U, V>(event: WaitRobotLoaded<H, E, U, V>) -> SpawnRobot<H, E, U, V> {
    SpawnRobot {
        handle: event.handle,
        mesh_dir: event.mesh_dir,
        parent_entity: event.parent_entity,
        robot_type: event.robot_type,
        uav_descriptor: event.uav_descriptor,
        uuv_descriptor: event.uuv_descriptor,
    }
}

/// Puts off a spawn request whose asset is not loaded yet.
pub fn wait_robot_loaded<H, E, U, V>(event: SpawnRobot<H, E, U, V>) -> (res: WaitRobotLoaded<H, E, U, V>)
    ensures
        res == waiting_for(event),
        res.handle == event.handle,
        res.mesh_dir == event.mesh_dir,
        res.parent_entity == event.parent_entity,
        res.robot_type == event.robot_type,
        res.uav_descriptor == event.uav_descriptor,
        res.uuv_descriptor == event.uuv_descriptor,
{
    WaitRobotLoaded {
        handle: event.handle,
        mesh_dir: event.mesh_dir,
        parent_entity: event.parent_entity,
        robot_type: event.robot_type,
        uav_descriptor: event.uav_descriptor,
        uuv_descriptor: event.uuv_descriptor,
    }
}

/// Sends a waiting spawn request again.
pub fn handle_wait_robot_loaded<H, E, U, V>(event: WaitRobotLoaded<H, E, U, V>) -> (res: SpawnRobot<H, E, U, V>)
    ensures
        res == respawn_of(event),
        res.handle == event.handle,
        res.mesh_dir == event.mesh_dir,
        res.parent_entity == event.parent_entity,
        res.robot_type == event.robot_type,
        res.uav_descriptor == event.uav_descriptor,
        res.uuv_descriptor == event.uuv_descriptor,
{
    SpawnRobot {
        handle: event.handle,
        mesh_dir: event.mesh_dir,
        parent_entity: event.parent_entity,
        robot_type: event.robot_type,
        uav_descriptor: event.uav_descriptor,
        uuv_descriptor: event.uuv_descriptor,
    }
}

/// A spawn request that waits for its asset comes back unchanged.
pub proof fn lemma_wait_then_respawn_is_identity<H, E, U, V>(event: SpawnRobot<H, E, U, V>)
    ensures
        respawn_of(waiting_for(event)) == event,
{
}

/// A waiting event sent again and put off again is unchanged.
pub proof fn lemma_respawn_then_wait_is_identity<H, E, U, V>(event: WaitRobotLoaded<H, E, U, V>)
    ensures
        waiting_for(respawn_of(event)) == event,
{
}

/// The event that answers a load request once loading of its asset has
/// started: the mesh directory with every `assets/` removed,
/// the other fields passed on, the marker among them.
pub fn robot_loaded<H, G, T, U, V>(event: LoadRobot<G, T, U, V>, handle: H) -> (res: RobotLoaded<H, U, V>)
    ensures
        res.handle == handle,
        res.mesh_dir@ == without_matches(event.mesh_dir@, assets_prefix()),
        res.marker == event.marker,
        res.robot_type == event.robot_type,
        res.uav_descriptor == event.uav_descriptor,
        res.uuv_descriptor == event.uuv_descriptor,
{
    proof {
        reveal_strlit("assets/");
        assert("assets/"@ =~= assets_prefix());
    }
    let mesh_dir = remove_matches(event.mesh_dir.as_str(), "assets/");
    RobotLoaded {
        handle,
        mesh_dir,
        marker: event.marker,
        robot_type: event.robot_type,
        uav_descriptor: event.uav_descriptor,
        uuv_descriptor: event.uuv_descriptor,
    }
}

/// Where the descriptor of a vehicle kind comes from when a robot is spawned.
#[derive(Clone, Copy, PartialEq, Eq, Structural, Debug)]
pub enum DescriptorSource {
    /// The one the spawn request carries.
    Given,
    /// One read from the URDF file.
    Extracted,
    /// None: the request carries none and the robot is of another kind.
    Absent,
}

/// Where the descriptor for robots of kind `kind` comes from, for a robot of
/// type `robot_type` whose spawn request carries one or not.
pub open spec fn descriptor_source_of(robot_type: RobotType, kind: RobotType, has_given: bool) -> DescriptorSource {
    if robot_type == kind && !has_given {
        DescriptorSource::Extracted
    } else if has_given {
        DescriptorSource::Given
    } else {
        DescriptorSource::Absent
    }
}

/// Decides where the descriptor for robots of kind `kind` comes from: one is
/// read from the URDF file when the robot is of that kind and the request
/// carries none; otherwise the request's own is used, if any.
pub fn descriptor_source(robot_type: RobotType, kind: RobotType, has_given: bool) -> (res: DescriptorSource)
    ensures
        res == descriptor_source_of(robot_type, kind, has_given),
        has_given ==> res == DescriptorSource::Given,
        !has_given && robot_type == kind ==> res == DescriptorSource::Extracted,
        !has_given && robot_type != kind ==> res == DescriptorSource::Absent,
{
    if robot_type == kind && !has_given {
        DescriptorSource::Extracted
    } else if has_given {
        DescriptorSource::Given
    } else {
        DescriptorSource::Absent
    }
}

/// A robot of a vehicle kind always has a descriptor for that kind when it
/// is spawned.
pub proof fn lemma_descriptor_present_for_its_kind(robot_type: RobotType, has_given: bool)
    ensures
        descriptor_source_of(robot_type, robot_type, has_given) != DescriptorSource::Absent,
{
}

/// Putting off a spawn request keeps every field of it.
pub proof fn lemma_waiting_keeps_fields<H, E, U, V>(event: SpawnRobot<H, E, U, V>)
    ensures
        waiting_for(event).handle == event.handle,
        waiting_for(event).mesh_dir == event.mesh_dir,
        waiting_for(event).parent_entity == event.parent_entity,
        waiting_for(event).robot_type == event.robot_type,
        waiting_for(event).uav_descriptor == event.uav_descriptor,
        waiting_for(event).uuv_descriptor == event.uuv_descriptor,
{
}

/// Sending a waiting request again keeps every field of it.
pub proof fn lemma_respawn_keeps_fields<H, E, U, V>(event: WaitRobotLoaded<H, E, U, V>)
    ensures
        respawn_of(event).handle == event.handle,
        respawn_of(event).mesh_dir == event.mesh_dir,
        respawn_of(event).parent_entity == event.parent_entity,
        respawn_of(event).robot_type == event.robot_type,
        respawn_of(event).uav_descriptor == event.uav_descriptor,
        respawn_of(event).uuv_descriptor == event.uuv_descriptor,
{
}

/// A descriptor carried by the spawn request is always used; without one, a
/// descriptor is read from the URDF exactly for a robot of the descriptor's
/// kind, and there is none for a robot of another kind.
pub proof fn lemma_descriptor_source_cases(robot_type: RobotType, kind: RobotType, has_given: bool)
    ensures
        has_given ==> descriptor_source_of(robot_type, kind, has_given) == DescriptorSource::Given,
        !has_given ==> (descriptor_source_of(robot_type, kind, has_given) == DescriptorSource::Extracted
            <==> robot_type == kind),
        !has_given && robot_type != kind ==> descriptor_source_of(robot_type, kind, has_given)
            == DescriptorSource::Absent,
{
}

} // verus!
