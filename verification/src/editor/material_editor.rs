//! The material editor: pick a material, change its model, and replace or
//! reset the values of its textures.
use vstd::prelude::*;

use crate::rds::{DynamicScene, DynamicTexture, MaterialField, MaterialModel, Scene};

verus! {

/// Which material the editor shows.
#[derive(Clone, Copy, Debug, PartialEq, Eq, Structural)]
pub struct MaterialEditorState {
    pub selected_material: usize,
}

impl MaterialEditorState {
    /// The first material is shown.
    pub fn new() -> (s: Self)
        ensures
            s.selected_material == 0,
    {
        MaterialEditorState { selected_material: 0 }
    }
}

/// The editor at work on a scene.
pub struct MaterialEditor<'a> {
    pub state: &'a mut MaterialEditorState,
    pub rds_scene: &'a mut Scene,
    pub dyn_scene: &'a mut DynamicScene,
}

impl<'a> MaterialEditor<'a> {
    pub fn new(
        state: &'a mut MaterialEditorState,
        rds_scene: &'a mut Scene,
        dyn_scene: &'a mut DynamicScene,
    ) -> (e: Self)
        ensures
            *e.state == *old(state),
            *e.rds_scene == *old(rds_scene),
            *e.dyn_scene == *old(dyn_scene),
            *final(state) == *final(e.state),
            *final(rds_scene) == *final(e.rds_scene),
            *final(dyn_scene) == *final(e.dyn_scene),
    {
        MaterialEditor { state, rds_scene, dyn_scene }
    }
}

impl<'a> MaterialEditor<'a> {
    /// Shows another material.
    pub fn select_material(&mut self, index: usize)
        requires
            index < old(self).rds_scene.materials@.len(),
        ensures
            final(self).state.selected_material == index,
            *final(self).rds_scene == *old(self).rds_scene,
            *final(self).dyn_scene == *old(self).dyn_scene,
    {
        self.state.selected_material = index;
    }

    /// Gives the shown material another model.
    pub fn set_model(&mut self, model: MaterialModel)
        requires
            old(self).state.selected_material < old(self).dyn_scene.materials@.len(),
        ensures
            *final(self).state == *old(self).state,
            final(self).dyn_scene.materials@ == old(self).dyn_scene.materials@.update(
                old(self).state.selected_material as int,
                crate::rds::DynamicMaterial {
                    model,
                    ..old(self).dyn_scene.materials@[old(self).state.selected_material as int]
                },
            ),
            final(self).dyn_scene.textures == old(self).dyn_scene.textures,
            final(self).dyn_scene.default_textures == old(self).dyn_scene.default_textures,
            final(self).dyn_scene.replaced() == old(self).dyn_scene.replaced(),
            *final(self).rds_scene == *old(self).rds_scene,
    {
        let index = self.state.selected_material;
        self.dyn_scene.set_model(index, model);
    }

    /// Replaces the value of a field of the shown material by an edit.
    pub fn edit_field(&mut self, field: MaterialField, value: DynamicTexture)
        requires
            old(self).dyn_scene.wf(),
            old(self).state.selected_material < old(self).dyn_scene.materials@.len(),
            old(self).dyn_scene.materials@[old(self).state.selected_material as int].spec_texture(
                field,
            ) < old(self).dyn_scene.textures@.len(),
        ensures
            ({
                let t = old(self).dyn_scene.materials@[old(
                    self,
                ).state.selected_material as int].spec_texture(field) as int;
                &&& final(self).dyn_scene.wf()
                &&& *final(self).state == *old(self).state
                &&& *final(self).rds_scene == *old(self).rds_scene
                &&& final(self).dyn_scene.materials == old(self).dyn_scene.materials
                &&& final(self).dyn_scene.default_textures == old(self).dyn_scene.default_textures
                &&& final(self).dyn_scene.textures@ == old(self).dyn_scene.textures@.update(
                    t,
                    value,
                )
                &&& final(self).dyn_scene.replaced() == old(self).dyn_scene.replaced().update(
                    t,
                    true,
                )
            }),
    {
        let t = self.dyn_scene.materials[self.state.selected_material].texture(field);
        self.dyn_scene.replace_texture(t, value);
    }

    /// Turns the replacement of a field of the shown material on or off.
    pub fn set_field_replaced(&mut self, field: MaterialField, replaced: bool)
        requires
            old(self).dyn_scene.wf(),
            old(self).state.selected_material < old(self).dyn_scene.materials@.len(),
            old(self).dyn_scene.materials@[old(self).state.selected_material as int].spec_texture(
                field,
            ) < old(self).dyn_scene.textures@.len(),
        ensures
            ({
                let t = old(self).dyn_scene.materials@[old(
                    self,
                ).state.selected_material as int].spec_texture(field) as int;
                &&& final(self).dyn_scene.wf()
                &&& *final(self).state == *old(self).state
                &&& *final(self).rds_scene == *old(self).rds_scene
                &&& final(self).dyn_scene.materials == old(self).dyn_scene.materials
                &&& final(self).dyn_scene.default_textures == old(self).dyn_scene.default_textures
                &&& final(self).dyn_scene.textures == old(self).dyn_scene.textures
                &&& final(self).dyn_scene.replaced() == old(self).dyn_scene.replaced().update(
                    t,
                    replaced,
                )
            }),
    {
        let t = self.dyn_scene.materials[self.state.selected_material].texture(field);
        self.dyn_scene.set_replaced(t, replaced);
    }

    /// Puts a field of the shown material back to its default value.
    pub fn reset_field(&mut self, field: MaterialField)
        requires
            old(self).dyn_scene.wf(),
            old(self).state.selected_material < old(self).dyn_scene.materials@.len(),
            old(self).dyn_scene.materials@[old(self).state.selected_material as int].spec_texture(
                field,
            ) < old(self).dyn_scene.textures@.len(),
        ensures
            ({
                let t = old(self).dyn_scene.materials@[old(
                    self,
                ).state.selected_material as int].spec_texture(field) as int;
                &&& final(self).dyn_scene.wf()
                &&& *final(self).state == *old(self).state
                &&& *final(self).rds_scene == *old(self).rds_scene
                &&& final(self).dyn_scene.materials == old(self).dyn_scene.materials
                &&& final(self).dyn_scene.default_textures == old(self).dyn_scene.default_textures
                &&& final(self).dyn_scene.textures@ == old(self).dyn_scene.textures@.update(
                    t,
                    old(self).dyn_scene.default_textures@[t],
                )
                &&& final(self).dyn_scene.replaced() == old(self).dyn_scene.replaced().update(
                    t,
                    false,
                )
            }),
    {
        let t = self.dyn_scene.materials[self.state.selected_material].texture(field);
        self.dyn_scene.reset_texture(t);
    }
}

} // verus!
