//! The settings of the URDF asset loader.

use vstd::prelude::*;

use crate::events::RapierOption;

verus! {

/// The settings handed to the URDF asset loader.
pub struct RpyAssetLoaderSettings<G, T> {
    pub mesh_dir: Option<String>,
    pub interaction_groups: Option<G>,
    pub translation_shift: Option<T>,
    pub create_colliders_from_visual_shapes: bool,
    pub create_colliders_from_collision_shapes: bool,
    pub make_roots_fixed: bool,
}

/// The loader settings for a load request: its physics options, with the
/// mesh directory given.
pub fn loader_settings<G: Copy, T: Copy>(options: &RapierOption<G, T>, mesh_dir: String) -> (res: RpyAssetLoaderSettings<G, T>)
    ensures
        res.mesh_dir == Some(mesh_dir),
        res.interaction_groups == options.interaction_groups,
        res.translation_shift == options.translation_shift,
        res.create_colliders_from_visual_shapes == options.create_colliders_from_visual_shapes,
        res.create_colliders_from_collision_shapes == options.create_colliders_from_collision_shapes,
        res.make_roots_fixed == options.make_roots_fixed,
{
    RpyAssetLoaderSettings {
        mesh_dir: Some(mesh_dir),
        interaction_groups: options.interaction_groups,
        translation_shift: options.translation_shift,
        create_colliders_from_visual_shapes: options.create_colliders_from_visual_shapes,
        create_colliders_from_collision_shapes: options.create_colliders_from_collision_shapes,
        make_roots_fixed: options.make_roots_fixed,
    }
}

/// The mesh directory the loader resolves meshes in: the one of the
/// settings, or `./` when they give none.
pub fn loader_mesh_dir<G, T>(settings: &RpyAssetLoaderSettings<G, T>) -> (res: String)
    ensures
        res@ == match settings.mesh_dir {
            Some(d) => d@,
            None => "./"@,
        },
{
    match &settings.mesh_dir {
        Some(d) => d.clone(),
        None => String::from_str("./"),
    }
}

} // verus!
