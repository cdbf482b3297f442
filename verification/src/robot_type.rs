//! The kinds of robot the plugin knows, and how they are named in text.

use vstd::prelude::*;

use vstd::utf8::is_ascii_chars;

use crate::text::str_eq;

verus! {

/// The kind of robot described by a URDF file.
#[derive(Clone, Copy, PartialEq, Eq, Structural, Debug, PartialOrd)]
pub enum RobotType {
    Drone,
    NotDrone,
    Uuv,
}

/// What `str::to_lowercase` gives for a string: its Unicode lowercase mapping.
pub uninterp spec fn lowercase_of(s: Seq<char>) -> Seq<char>;

/// The ASCII lowercase of a character: `A`..`Z` become `a`..`z`, every other
/// character stays.
pub open spec fn ascii_lowercase_char(c: char) -> char {
    if 'A' <= c && c <= 'Z' {
        ((c as u32) + 32) as char
    } else {
        c
    }
}

/// The ASCII lowercase of a string, character by character.
pub open spec fn ascii_lowercase(s: Seq<char>) -> Seq<char> {
    Seq::new(s.len(), |i: int| ascii_lowercase_char(s[i]))
}

/// Lowercases a string with `str::to_lowercase`.
///
/// Trusted: the result is `lowercase_of` applied to the argument, and on an
/// ASCII string it is the string with `A`..`Z` turned into `a`..`z` (the
/// Unicode lowercase mapping of ASCII characters). What the mapping does to
/// other characters is left unsaid.
#[verifier::external_body]
fn to_lowercase(s: &str) -> (res: String)
    ensures
        res@ == lowercase_of(s@),
        is_ascii_chars(s@) ==> res@ == ascii_lowercase(s@),
{
    s.to_lowercase()
}

/// The robot type named by an already lowercased word, if any.
pub open spec fn robot_type_named(lower: Seq<char>) -> Option<RobotType> {
    if lower == "drone"@ {
        Some(RobotType::Drone)
    } else if lower == "notdrone"@ || lower == "not_drone"@ || lower == "not-drone"@ {
        Some(RobotType::NotDrone)
    } else if lower == "uuv"@ {
        Some(RobotType::Uuv)
    } else {
        None
    }
}

/// The name of each robot type as its `Debug` form prints it.
pub open spec fn robot_type_name(t: RobotType) -> Seq<char> {
    match t {
        RobotType::Drone => "Drone"@,
        RobotType::NotDrone => "NotDrone"@,
        RobotType::Uuv => "Uuv"@,
    }
}

/// Each robot type is parsed back from its name: the name is ASCII, and its
/// lowercase names that type.
pub proof fn lemma_robot_type_name_parses(t: RobotType)
    ensures
        is_ascii_chars(robot_type_name(t)),
        robot_type_named(ascii_lowercase(robot_type_name(t))) == Some(t),
{
    reveal_strlit("Drone");
    reveal_strlit("NotDrone");
    reveal_strlit("Uuv");
    reveal_strlit("drone");
    reveal_strlit("notdrone");
    reveal_strlit("not_drone");
    reveal_strlit("not-drone");
    reveal_strlit("uuv");
    let n = robot_type_name(t);
    let l = ascii_lowercase(n);
    match t {
        RobotType::Drone => {
            assert(l =~= "drone"@);
        },
        RobotType::NotDrone => {
            assert(l =~= "notdrone"@);
            assert(l != "drone"@);
        },
        RobotType::Uuv => {
            assert(l =~= "uuv"@);
            assert(l.len() != "drone"@.len());
            assert(l.len() != "notdrone"@.len());
            assert(l.len() != "not_drone"@.len());
            assert(l.len() != "not-drone"@.len());
        },
    }
}

/// The message given for a name that is no robot type.
pub open spec fn invalid_robot_type_message(s: Seq<char>) -> Seq<char> {
    "Invalid robot type: '"@ + s + "'"@
}

/// The robot type named by a lowercased word: `drone`, `notdrone`,
/// `not_drone`, `not-drone` or `uuv`.
pub fn robot_type_from_lowercase(lower: &str) -> (res: Option<RobotType>)
    ensures
        res == robot_type_named(lower@),
{
    if str_eq(lower, "drone") {
        Some(RobotType::Drone)
    } else if str_eq(lower, "notdrone") || str_eq(lower, "not_drone") || str_eq(lower, "not-drone") {
        Some(RobotType::NotDrone)
    } else if str_eq(lower, "uuv") {
        Some(RobotType::Uuv)
    } else {
        None
    }
}

/// Parses a robot type from its name, ignoring case.
///
/// Fails with the message `Invalid robot type: '<s>'` for any other name.
pub fn parse_robot_type(s: &str) -> (res: Result<RobotType, String>)
    ensures
        match robot_type_named(lowercase_of(s@)) {
            Some(t) => res == Ok::<RobotType, String>(t),
            None => res is Err && res->Err_0@ == invalid_robot_type_message(s@),
        },
        is_ascii_chars(s@) ==> match robot_type_named(ascii_lowercase(s@)) {
            Some(t) => res == Ok::<RobotType, String>(t),
            None => res is Err,
        },
{
    let lower = to_lowercase(s);
    match robot_type_from_lowercase(lower.as_str()) {
        Some(t) => Ok(t),
        None => {
            let mut msg = String::from_str("Invalid robot type: '");
            msg.append(s);
            msg.append("'");
            Err(msg)
        },
    }
}

impl std::str::FromStr for RobotType {
    type Err = String;

    /// Parses a robot type from its name, ignoring case, as `parse_robot_type` does.
    fn from_str(s: &str) -> (res: Result<RobotType, String>)
        ensures
            match robot_type_named(lowercase_of(s@)) {
                Some(t) => res == Ok::<RobotType, String>(t),
                None => res is Err && res->Err_0@ == invalid_robot_type_message(s@),
            },
            is_ascii_chars(s@) ==> match robot_type_named(ascii_lowercase(s@)) {
                Some(t) => res == Ok::<RobotType, String>(t),
                None => res is Err,
            },
    {
        parse_robot_type(s)
    }
}

} // verus!
