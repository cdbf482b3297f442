# bevy_urdf

A Bevy plugin that loads URDF robot descriptions and spawns them into a Rapier
physics world. The decisions of the plugin are a library verified with Verus
(`src/`); the engine glue around them is ordinary Rust (`app/`).

`src/`:

- `paths`: mesh directories as Bevy asset paths and as filesystem paths.
- `text`: character-level matching, prefixes and removal of matches.
- `robot_type`: the robot kinds and their parsing from text.
- `events`: the load/spawn event chain and where vehicle descriptors come from.
- `loader`: the settings of the URDF asset loader.
- `geometry`: what is shown of each link, and the colour of a part.
- `parts`: which parts are spawned and how they are placed; rotor numbering.
- `control`: which commanded velocity drives which joint motor.
- `sensors`: which body parts belong to which robot.

`app/`: the plugin, its systems and components, the asset loader, forward
kinematics and every computation on floating-point poses, colours and meshes.

Robot types are parsed with `robot_type::parse_robot_type` or `str::parse`
(`FromStr`). The panicking `From<String>` and `From<&str>` conversions of
`RobotType` are not provided: a verified function does not panic, and an
impl for the library's type cannot live in `app/`. Bevy's `Reflect` derive is
not on `RobotType` either, as no outside derive can stand in `src/`.
