//! Offline rendering of scene configurations: the arguments of a run and the
//! material edits that a configuration asks for.
use vstd::prelude::*;

use crate::rds::dynamic::{dynamic_material_by_name, is_first_named};
use crate::rds::{DynamicScene, MaterialField, Scene};

verus! {

/// What an offline rendering run needs.
#[derive(Clone, Debug)]
pub struct Args {
    /// Path of the `.glb` scene to render.
    pub glb_scene: String,
    /// Name of the run, used in the names of the files it writes.
    pub render_job_name: String,
    /// Path of the rendering configuration.
    pub render_config: String,
    /// Path of the scene configurations.
    pub scene_config: String,
}

/// Hands the field `field` of the first material named `name` to a
/// configuration: marks its texture as replaced and returns the texture's
/// index, or changes nothing and returns `None` when no material has that
/// name.
pub fn map_material_field(
    scene: &Scene,
    dyn_scene: &mut DynamicScene,
    name: &str,
    field: MaterialField,
) -> (texture: Option<u32>)
    requires
        old(dyn_scene).wf(),
        forall|i: int| #[trigger]
            is_first_named(*scene, name@, i) ==> i < old(dyn_scene).materials.len()
                && old(dyn_scene).materials[i].spec_texture(field) < old(dyn_scene).textures.len(),
    ensures
        final(dyn_scene).wf(),
        final(dyn_scene).materials == old(dyn_scene).materials,
        final(dyn_scene).textures == old(dyn_scene).textures,
        final(dyn_scene).default_textures == old(dyn_scene).default_textures,
        texture is None <==> forall|i: int|
            0 <= i < scene.materials.len() ==> scene.materials[i].name@ != name@,
        texture is None ==> final(dyn_scene).replaced() == old(dyn_scene).replaced(),
        texture matches Some(t) ==> exists|i: int|
            is_first_named(*scene, name@, i) && t == old(dyn_scene).materials[i].spec_texture(field)
                && final(dyn_scene).replaced() == old(dyn_scene).replaced().update(t as int, true),
{
    match dynamic_material_by_name(scene, dyn_scene, name) {
        Some(material) => {
            let texture = material.texture(field);
            dyn_scene.set_replaced(texture, true);
            Some(texture)
        },
        None => None,
    }
}

} // verus!
