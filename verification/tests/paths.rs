use bevy_urdf::paths::{to_asset_path, to_filesystem_path};
use bevy_urdf::text::{remove_matches, skip_chars, starts_with, str_eq};

#[test]
fn filesystem_path_adds_assets_with_root() {
    assert_eq!(to_filesystem_path("meshes/drone", true), "assets/meshes/drone");
}

#[test]
fn filesystem_path_keeps_existing_assets_prefix() {
    assert_eq!(to_filesystem_path("assets/meshes", true), "assets/meshes");
}

#[test]
fn filesystem_path_unchanged_without_root() {
    assert_eq!(to_filesystem_path("meshes/drone", false), "meshes/drone");
    assert_eq!(to_filesystem_path("", false), "");
}

#[test]
fn filesystem_path_of_empty_dir_with_root() {
    assert_eq!(to_filesystem_path("", true), "assets/");
}

#[test]
fn filesystem_path_is_idempotent() {
    let once = to_filesystem_path("models/uuv", true);
    let twice = to_filesystem_path(&once, true);
    assert_eq!(once, twice);
}

#[test]
fn asset_path_strips_assets_without_root() {
    assert_eq!(to_asset_path("assets/meshes/drone", false), "meshes/drone");
}

#[test]
fn asset_path_strips_only_the_prefix() {
    assert_eq!(to_asset_path("assets/a/assets/b", false), "a/assets/b");
    assert_eq!(to_asset_path("models/assets/arm", false), "models/assets/arm");
    assert_eq!(to_asset_path("assets/", false), "");
    assert_eq!(to_asset_path("assets", false), "assets");
}

#[test]
fn asset_path_unchanged_with_root() {
    assert_eq!(to_asset_path("assets/meshes", true), "assets/meshes");
}

#[test]
fn asset_path_undoes_filesystem_path() {
    let fs = to_filesystem_path("meshes/quad", true);
    assert_eq!(to_asset_path(&fs, false), "meshes/quad");
}

#[test]
fn asset_path_of_prefixed_filesystem_path() {
    let fs = to_filesystem_path("assets/meshes", true);
    assert_eq!(to_asset_path(&fs, false), "meshes");
}

#[test]
fn skip_chars_cases() {
    assert_eq!(skip_chars("assets/é", 7), "é");
    assert_eq!(skip_chars("abc", 0), "abc");
    assert_eq!(skip_chars("abc", 3), "");
}

#[test]
fn remove_matches_agrees_with_replace() {
    let cases = ["", "aaaa", "abab", "xassets/y", "assets/assets/", "éassets/ü", "assets"];
    for c in cases {
        assert_eq!(remove_matches(c, "assets/"), c.replace("assets/", ""));
    }
    assert_eq!(remove_matches("aaaa", "aa"), "");
    assert_eq!(remove_matches("aaa", "aa"), "a");
    assert_eq!(remove_matches("abc", ""), "abc");
}

#[test]
fn starts_with_cases() {
    assert!(starts_with("assets/x", "assets/"));
    assert!(!starts_with("asset", "assets/"));
    assert!(starts_with("anything", ""));
    assert!(!starts_with("xassets/", "assets/"));
}

#[test]
fn str_eq_cases() {
    assert!(str_eq("drone", "drone"));
    assert!(!str_eq("drone", "drones"));
    assert!(!str_eq("Drone", "drone"));
    assert!(str_eq("", ""));
}
