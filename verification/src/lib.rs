//! Verified core of a Bevy plugin that loads URDF robot descriptions and
//! spawns them into a Rapier physics world: mesh directory paths, robot
//! types, the event chain that loads and spawns robots, the choice of the
//! geometry, colour and placement of robot parts, the assignment of motor
//! velocities and the grouping of parts for sensor readings.

pub mod control;
pub mod events;
pub mod geometry;
pub mod loader;
pub mod parts;
pub mod paths;
pub mod robot_type;
pub mod sensors;
pub mod text;

pub use events::{
    DespawnRobot, LoadRobot, RapierOption, RobotLoaded, RobotSpawned, SpawnRobot, WaitRobotLoaded,
};
pub use geometry::{extract_robot_geometry, get_color};
pub use loader::RpyAssetLoaderSettings;
pub use paths::{to_asset_path, to_filesystem_path};
pub use robot_type::RobotType;
