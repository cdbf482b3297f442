//! Conversions between Bevy asset paths and filesystem paths of mesh directories.

use vstd::prelude::*;

use crate::text::{skip_chars, starts_with};

verus! {

/// The directory that Bevy's asset server reads from, as a path prefix: `assets/`.
pub open spec fn assets_prefix() -> Seq<char> {
    seq!['a', 's', 's', 'e', 't', 's', '/']
}

/// The filesystem path of a mesh directory: with the asset root set, the
/// directory is placed under `assets/` unless it already starts with it.
pub open spec fn filesystem_path_of(mesh_dir: Seq<char>, asset_root_set: bool) -> Seq<char> {
    if asset_root_set && !assets_prefix().is_prefix_of(mesh_dir) {
        assets_prefix() + mesh_dir
    } else {
        mesh_dir
    }
}

/// The asset path of a mesh directory: with the asset root set it is kept as
/// it is, otherwise a leading `assets/` is removed from it.
pub open spec fn asset_path_of(mesh_dir: Seq<char>, asset_root_set: bool) -> Seq<char> {
    if !asset_root_set && assets_prefix().is_prefix_of(mesh_dir) {
        mesh_dir.skip(7)
    } else {
        mesh_dir
    }
}

proof fn lemma_assets_literal()
    ensures
        "assets/"@ == assets_prefix(),
{
    reveal_strlit("assets/");
    assert("assets/"@ =~= assets_prefix());
}

/// Converts a mesh directory given as a Bevy asset path to a filesystem path.
///
/// When the asset root is set (`BEVY_ASSET_ROOT`), `assets/` is put in front
/// of the directory unless it already starts with it.
pub fn to_filesystem_path(mesh_dir: &str, asset_root_set: bool) -> (res: String)
    ensures
        res@ == filesystem_path_of(mesh_dir@, asset_root_set),
        !asset_root_set ==> res@ == mesh_dir@,
        asset_root_set && assets_prefix().is_prefix_of(mesh_dir@) ==> res@ == mesh_dir@,
        asset_root_set && !assets_prefix().is_prefix_of(mesh_dir@) ==> res@ == assets_prefix() + mesh_dir@,
{
    proof {
        lemma_assets_literal();
    }
    if asset_root_set && !starts_with(mesh_dir, "assets/") {
        let mut res = String::from_str("assets/");
        res.append(mesh_dir);
        res
    } else {
        String::from_str(mesh_dir)
    }
}

/// Converts a mesh directory given as a filesystem path to a Bevy asset path.
///
/// When the asset root is not set, the `assets/` prefix is removed.
pub fn to_asset_path(mesh_dir: &str, asset_root_set: bool) -> (res: String)
    ensures
        res@ == asset_path_of(mesh_dir@, asset_root_set),
        asset_root_set ==> res@ == mesh_dir@,
        !asset_root_set && assets_prefix().is_prefix_of(mesh_dir@) ==> assets_prefix() + res@ == mesh_dir@,
        !asset_root_set && !assets_prefix().is_prefix_of(mesh_dir@) ==> res@ == mesh_dir@,
{
    proof {
        lemma_assets_literal();
    }
    if !asset_root_set && starts_with(mesh_dir, "assets/") {
        proof {
            assert(assets_prefix() + mesh_dir@.skip(7) =~= mesh_dir@);
        }
        skip_chars(mesh_dir, 7)
    } else {
        String::from_str(mesh_dir)
    }
}

/// Filesystem paths are stable: converting a filesystem path again changes nothing.
pub proof fn lemma_filesystem_path_idempotent(mesh_dir: Seq<char>, asset_root_set: bool)
    ensures
        filesystem_path_of(filesystem_path_of(mesh_dir, asset_root_set), asset_root_set)
            == filesystem_path_of(mesh_dir, asset_root_set),
{
    let p = filesystem_path_of(mesh_dir, asset_root_set);
    if asset_root_set && !assets_prefix().is_prefix_of(mesh_dir) {
        assert(p.subrange(0, 7) =~= assets_prefix());
    }
}

/// With the asset root set, every filesystem path lies under `assets/`.
pub proof fn lemma_filesystem_path_under_assets(mesh_dir: Seq<char>)
    ensures
        assets_prefix().is_prefix_of(filesystem_path_of(mesh_dir, true)),
{
    let p = filesystem_path_of(mesh_dir, true);
    if !assets_prefix().is_prefix_of(mesh_dir) {
        assert(p.subrange(0, 7) =~= assets_prefix());
    }
}

/// Without the asset root, a mesh directory that does not start with
/// `assets/` is its own asset path, wherever else `assets/` occurs in it.
pub proof fn lemma_asset_path_plain(mesh_dir: Seq<char>)
    requires
        !assets_prefix().is_prefix_of(mesh_dir),
    ensures
        asset_path_of(mesh_dir, false) == mesh_dir,
{
}

/// The asset path undoes the filesystem path: a mesh directory that does not
/// start with `assets/`, sent under `assets/` for the asset root and read
/// back without it, is the directory itself.
pub proof fn lemma_asset_path_undoes_filesystem_path(mesh_dir: Seq<char>)
    requires
        !assets_prefix().is_prefix_of(mesh_dir),
    ensures
        asset_path_of(filesystem_path_of(mesh_dir, true), false) == mesh_dir,
{
    let p = assets_prefix() + mesh_dir;
    assert(p.subrange(0, 7) =~= assets_prefix());
    assert(p.skip(7) =~= mesh_dir);
}

/// Without the asset root, the asset path of `assets/` followed by a
/// directory is that directory.
pub proof fn lemma_asset_path_drops_assets_prefix(mesh_dir: Seq<char>)
    ensures
        asset_path_of(assets_prefix() + mesh_dir, false) == mesh_dir,
{
    let p = assets_prefix() + mesh_dir;
    assert(p.subrange(0, 7) =~= assets_prefix());
    assert(p.skip(7) =~= mesh_dir);
}

/// With the asset root set, a mesh directory is its own asset path; without
/// it, the asset path is what is left after a leading `assets/`, and a
/// directory without that prefix is kept.
pub proof fn lemma_asset_path_by_root(mesh_dir: Seq<char>)
    ensures
        asset_path_of(mesh_dir, true) == mesh_dir,
        assets_prefix().is_prefix_of(mesh_dir) ==> assets_prefix() + asset_path_of(mesh_dir, false)
            == mesh_dir,
        !assets_prefix().is_prefix_of(mesh_dir) ==> asset_path_of(mesh_dir, false) == mesh_dir,
{
    if assets_prefix().is_prefix_of(mesh_dir) {
        assert(assets_prefix() + mesh_dir.skip(7) =~= mesh_dir);
    }
}

/// Without the asset root, a mesh directory is its own filesystem path; with
/// it, the filesystem path is the directory under `assets/`, unless it is
/// there already.
pub proof fn lemma_filesystem_path_by_root(mesh_dir: Seq<char>)
    ensures
        filesystem_path_of(mesh_dir, false) == mesh_dir,
        assets_prefix().is_prefix_of(mesh_dir) ==> filesystem_path_of(mesh_dir, true) == mesh_dir,
        !assets_prefix().is_prefix_of(mesh_dir) ==> filesystem_path_of(mesh_dir, true)
            == assets_prefix() + mesh_dir,
{
}

} // verus!
