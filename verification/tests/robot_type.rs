use bevy_urdf::robot_type::{parse_robot_type, robot_type_from_lowercase};
use bevy_urdf::RobotType;

#[test]
fn parses_names_ignoring_case() {
    assert_eq!(parse_robot_type("drone"), Ok(RobotType::Drone));
    assert_eq!(parse_robot_type("DRONE"), Ok(RobotType::Drone));
    assert_eq!(parse_robot_type("Uuv"), Ok(RobotType::Uuv));
    assert_eq!(parse_robot_type("NotDrone"), Ok(RobotType::NotDrone));
    assert_eq!(parse_robot_type("not_drone"), Ok(RobotType::NotDrone));
    assert_eq!(parse_robot_type("NOT-DRONE"), Ok(RobotType::NotDrone));
}

#[test]
fn rejects_other_names_with_message() {
    assert_eq!(
        parse_robot_type("Boat"),
        Err("Invalid robot type: 'Boat'".to_string())
    );
    assert_eq!(parse_robot_type(""), Err("Invalid robot type: ''".to_string()));
    assert_eq!(
        parse_robot_type(" drone"),
        Err("Invalid robot type: ' drone'".to_string())
    );
}

#[test]
fn from_str_goes_through_parse() {
    let t: RobotType = "UUV".parse().unwrap();
    assert_eq!(t, RobotType::Uuv);
    assert!("car".parse::<RobotType>().is_err());
}

#[test]
fn lowercase_names_only() {
    assert_eq!(robot_type_from_lowercase("drone"), Some(RobotType::Drone));
    assert_eq!(robot_type_from_lowercase("Drone"), None);
    assert_eq!(robot_type_from_lowercase("uuv"), Some(RobotType::Uuv));
    assert_eq!(robot_type_from_lowercase("not-drone"), Some(RobotType::NotDrone));
    assert_eq!(robot_type_from_lowercase("notdrones"), None);
}

#[test]
fn debug_names_parse_back() {
    for t in [RobotType::Drone, RobotType::NotDrone, RobotType::Uuv] {
        assert_eq!(format!("{:?}", t).parse::<RobotType>(), Ok(t));
    }
}
