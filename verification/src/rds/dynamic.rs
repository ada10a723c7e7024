//! The editable part of a scene: per-material models, and texture values that
//! can replace the imported textures.
use vstd::prelude::*;

use super::scene::{image_is_valid, spec_sample_cell, Scene};
use super::{MaterialField, MaterialModel};
use crate::text::str_eq;

verus! {

/// A material as the renderer reads it: its model and the indices of its
/// textures.
#[derive(Clone, Copy, Debug, PartialEq, Eq, Structural)]
pub struct DynamicMaterial {
    pub model: MaterialModel,
    pub base_color: u32,
    pub metallic: u32,
    pub roughness: u32,
    pub specular: u32,
    pub specular_tint: u32,
    pub sheen: u32,
    pub sheen_tint: u32,
}

impl DynamicMaterial {
    /// The texture index of one field.
    pub open spec fn spec_texture(self, field: MaterialField) -> u32 {
        match field {
            MaterialField::BaseColor => self.base_color,
            MaterialField::Metallic => self.metallic,
            MaterialField::Roughness => self.roughness,
            MaterialField::Specular => self.specular,
            MaterialField::SpecularTint => self.specular_tint,
            MaterialField::Sheen => self.sheen,
            MaterialField::SheenTint => self.sheen_tint,
        }
    }

    /// The texture index of one field.
    pub fn texture(&self, field: MaterialField) -> (index: u32)
        ensures
            index == self.spec_texture(field),
    {
        match field {
            MaterialField::BaseColor => self.base_color,
            MaterialField::Metallic => self.metallic,
            MaterialField::Roughness => self.roughness,
            MaterialField::Specular => self.specular,
            MaterialField::SpecularTint => self.specular_tint,
            MaterialField::Sheen => self.sheen,
            MaterialField::SheenTint => self.sheen_tint,
        }
    }
}

/// A constant texture value, as the bit patterns of its `f32` components.
#[derive(Clone, Copy, Debug, PartialEq, Eq)]
pub enum DynamicTexture {
    Scalar(u32),
    Vector2([u32; 2]),
    Vector3([u32; 3]),
    Vector4([u32; 4]),
}

/// The RGBA sample of a constant texture: its components, then zeros (the
/// bit pattern of `0.0` is zero).
pub open spec fn dynamic_texture_sample(t: DynamicTexture) -> [u32; 4] {
    match t {
        DynamicTexture::Scalar(s) => [s, 0, 0, 0],
        DynamicTexture::Vector2(v) => [v[0], v[1], 0, 0],
        DynamicTexture::Vector3(v) => [v[0], v[1], v[2], 0],
        DynamicTexture::Vector4(v) => [v[0], v[1], v[2], v[3]],
    }
}

impl DynamicTexture {
    /// The RGBA sample of the texture.
    pub fn sample(&self) -> (rgba: [u32; 4])
        ensures
            rgba == dynamic_texture_sample(*self),
    {
        match self {
            DynamicTexture::Scalar(s) => [*s, 0, 0, 0],
            DynamicTexture::Vector2(v) => [v[0], v[1], 0, 0],
            DynamicTexture::Vector3(v) => [v[0], v[1], v[2], 0],
            DynamicTexture::Vector4(v) => [v[0], v[1], v[2], v[3]],
        }
    }
}

/// One flag per texture: whether its dynamic value replaces the imported one.
/// The flags are a `bitvec::vec::BitVec`, kept in a field of this struct:
/// Verus does not accept a declaration of `BitVec` itself, whose parameters
/// are bound by the outside traits `BitStore` and `BitOrder`.
#[verifier::external_body]
pub struct TextureFlags {
    bits: bitvec::vec::BitVec,
}

/// The flags held by a `TextureFlags`, in texture order.
pub uninterp spec fn texture_flag_bits(flags: TextureFlags) -> Seq<bool>;

impl Clone for TextureFlags {
    /// A copy of the flags (`BitVec::clone`).
    #[verifier::external_body]
    fn clone(&self) -> (copy: Self)
        ensures
            texture_flag_bits(copy) == texture_flag_bits(*self),
    {
        TextureFlags { bits: self.bits.clone() }
    }
}

impl Default for TextureFlags {
    /// No flags (`BitVec::new`).
    #[verifier::external_body]
    fn default() -> (flags: Self)
        ensures
            texture_flag_bits(flags) == Seq::<bool>::empty(),
    {
        TextureFlags { bits: bitvec::vec::BitVec::new() }
    }
}

impl TextureFlags {
    /// `len` flags, all cleared (`BitVec::repeat`, which panics on lengths
    /// above `usize::MAX >> 3`).
    #[verifier::external_body]
    pub fn cleared(len: usize) -> (flags: Self)
        requires
            len <= usize::MAX / 8,
        ensures
            texture_flag_bits(flags) == Seq::new(len as nat, |i: int| false),
    {
        TextureFlags { bits: bitvec::vec::BitVec::repeat(false, len) }
    }

    /// The flag at `index` (indexing a `BitVec`).
    #[verifier::external_body]
    pub fn get(&self, index: usize) -> (bit: bool)
        requires
            index < texture_flag_bits(*self).len(),
        ensures
            bit == texture_flag_bits(*self)[index as int],
    {
        self.bits[index]
    }

    /// Sets the flag at `index` (`BitVec::set`).
    #[verifier::external_body]
    pub fn set(&mut self, index: usize, value: bool)
        requires
            index < texture_flag_bits(*old(self)).len(),
        ensures
            texture_flag_bits(*final(self)) == texture_flag_bits(*old(self)).update(
                index as int,
                value,
            ),
    {
        self.bits.set(index, value);
    }
}

/// The editable part of a scene.
#[derive(Clone, Default)]
pub struct DynamicScene {
    pub materials: Vec<DynamicMaterial>,
    pub textures: Vec<DynamicTexture>,
    pub default_textures: Vec<DynamicTexture>,
    pub replaced_textures: TextureFlags,
}

impl DynamicScene {
    /// The flags of the scene.
    pub open spec fn replaced(self) -> Seq<bool> {
        texture_flag_bits(self.replaced_textures)
    }

    /// Every texture has a default value and a flag.
    pub open spec fn wf(self) -> bool {
        &&& self.default_textures.len() == self.textures.len()
        &&& self.replaced().len() == self.textures.len()
    }

    /// Replaces the texture at `index` by `value`, as an edit in the material
    /// editor does.
    pub fn replace_texture(&mut self, index: u32, value: DynamicTexture)
        requires
            old(self).wf(),
            index < old(self).textures.len(),
        ensures
            final(self).wf(),
            final(self).materials == old(self).materials,
            final(self).default_textures == old(self).default_textures,
            final(self).textures@ == old(self).textures@.update(index as int, value),
            final(self).replaced() == old(self).replaced().update(index as int, true),
    {
        let i = index as usize;
        self.textures.set(i, value);
        self.replaced_textures.set(i, true);
    }

    /// Turns the replacement of the texture at `index` on or off, keeping the
    /// value, as the check box of the material editor does.
    pub fn set_replaced(&mut self, index: u32, replaced: bool)
        requires
            old(self).wf(),
            index < old(self).textures.len(),
        ensures
            final(self).wf(),
            final(self).materials == old(self).materials,
            final(self).default_textures == old(self).default_textures,
            final(self).textures == old(self).textures,
            final(self).replaced() == old(self).replaced().update(index as int, replaced),
    {
        self.replaced_textures.set(index as usize, replaced);
    }

    /// Puts the texture at `index` back to its default value and stops
    /// replacing it, as the reset button of the material editor does.
    pub fn reset_texture(&mut self, index: u32)
        requires
            old(self).wf(),
            index < old(self).textures.len(),
        ensures
            final(self).wf(),
            final(self).materials == old(self).materials,
            final(self).default_textures == old(self).default_textures,
            final(self).textures@ == old(self).textures@.update(
                index as int,
                old(self).default_textures[index as int],
            ),
            final(self).replaced() == old(self).replaced().update(index as int, false),
    {
        let i = index as usize;
        let default = self.default_textures[i];
        self.textures.set(i, default);
        self.replaced_textures.set(i, false);
    }

    /// Gives the material at `index` another model.
    pub fn set_model(&mut self, index: usize, model: MaterialModel)
        requires
            index < old(self).materials.len(),
        ensures
            final(self).textures == old(self).textures,
            final(self).default_textures == old(self).default_textures,
            final(self).replaced() == old(self).replaced(),
            final(self).materials@ == old(self).materials@.update(
                index as int,
                DynamicMaterial { model, ..old(self).materials[index as int] },
            ),
    {
        let mut material = self.materials[index];
        material.model = model;
        self.materials.set(index, material);
    }
}

/// The value of a texture when it is replaced, and `None` when the imported
/// texture is in use.
pub open spec fn spec_dynamic_try_sample(dyn_scene: DynamicScene, index: int) -> Option<[u32; 4]> {
    if dyn_scene.replaced()[index] {
        Some(dynamic_texture_sample(dyn_scene.textures[index]))
    } else {
        None
    }
}

/// The value of texture `texture_index` if it is replaced.
pub fn dynamic_try_sample(dyn_scene: &DynamicScene, texture_index: u32) -> (rgba: Option<[u32; 4]>)
    requires
        dyn_scene.wf(),
        texture_index < dyn_scene.textures.len(),
    ensures
        rgba == spec_dynamic_try_sample(*dyn_scene, texture_index as int),
{
    let index = texture_index as usize;
    if dyn_scene.replaced_textures.get(index) {
        return Some(dyn_scene.textures[index].sample());
    }
    None
}

/// The value of texture `texture_index` at texel column `x` and row `y`:
/// its replacement when it is replaced, else the imported texture there.
pub fn dynamic_sample(scene: &Scene, dyn_scene: &DynamicScene, texture_index: u32, x: usize, y: usize) -> (rgba:
    [u32; 4])
    requires
        dyn_scene.wf(),
        texture_index < dyn_scene.textures.len(),
        texture_index < scene.textures.len(),
        image_is_valid(scene.textures[texture_index as int]@),
    ensures
        rgba == match spec_dynamic_try_sample(*dyn_scene, texture_index as int) {
            Some(v) => v,
            None => spec_sample_cell(scene.textures[texture_index as int]@, x as int, y as int),
        },
{
    let index = texture_index as usize;
    if dyn_scene.replaced_textures.get(index) {
        dyn_scene.textures[index].sample()
    } else {
        scene.textures[index].sample_cell(x, y)
    }
}

/// The model of material `material_index`.
pub fn dynamic_model(dyn_scene: &DynamicScene, material_index: u32) -> (model: MaterialModel)
    requires
        material_index < dyn_scene.materials.len(),
    ensures
        model == dyn_scene.materials[material_index as int].model,
{
    let index = material_index as usize;
    dyn_scene.materials[index].model
}

/// Whether `i` is the first material of `scene` with the given name.
pub open spec fn is_first_named(scene: Scene, name: Seq<char>, i: int) -> bool {
    &&& 0 <= i < scene.materials.len()
    &&& scene.materials[i].name@ == name
    &&& forall|j: int| 0 <= j < i ==> scene.materials[j].name@ != name
}

/// The editable material that belongs to the first material of `scene`
/// named `name`, or `None` when no material has that name.
pub fn dynamic_material_by_name(scene: &Scene, dyn_scene: &DynamicScene, name: &str) -> (found:
    Option<DynamicMaterial>)
    requires
        forall|i: int| is_first_named(*scene, name@, i) ==> i < dyn_scene.materials.len(),
    ensures
        found is None <==> forall|i: int|
            0 <= i < scene.materials.len() ==> scene.materials[i].name@ != name@,
        found matches Some(m) ==> exists|i: int|
            is_first_named(*scene, name@, i) && m == dyn_scene.materials[i],
{
    let mut i: usize = 0;
    while i < scene.materials.len()
        invariant
            0 <= i <= scene.materials.len(),
            forall|j: int| 0 <= j < i ==> scene.materials[j].name@ != name@,
            forall|k: int| is_first_named(*scene, name@, k) ==> k < dyn_scene.materials.len(),
        decreases scene.materials.len() - i,
    {
        if str_eq(scene.materials[i].name.as_str(), name) {
            assert(is_first_named(*scene, name@, i as int));
            return Some(dyn_scene.materials[i]);
        }
        i += 1;
    }
    None
}

/// Law: each field of a material names the texture stored in the member of
/// the same name, so editing one field never touches another field's
/// texture when the members differ.
pub proof fn lemma_texture_of_each_field(m: DynamicMaterial)
    ensures
        m.spec_texture(MaterialField::BaseColor) == m.base_color,
        m.spec_texture(MaterialField::Metallic) == m.metallic,
        m.spec_texture(MaterialField::Roughness) == m.roughness,
        m.spec_texture(MaterialField::Specular) == m.specular,
        m.spec_texture(MaterialField::SpecularTint) == m.specular_tint,
        m.spec_texture(MaterialField::Sheen) == m.sheen,
        m.spec_texture(MaterialField::SheenTint) == m.sheen_tint,
        forall|f: MaterialField, g: MaterialField|
            f != g && m.base_color != m.metallic && m.base_color != m.roughness && m.base_color
                != m.specular && m.base_color != m.specular_tint && m.base_color != m.sheen
                && m.base_color != m.sheen_tint && m.metallic != m.roughness && m.metallic
                != m.specular && m.metallic != m.specular_tint && m.metallic != m.sheen
                && m.metallic != m.sheen_tint && m.roughness != m.specular && m.roughness
                != m.specular_tint && m.roughness != m.sheen && m.roughness != m.sheen_tint
                && m.specular != m.specular_tint && m.specular != m.sheen && m.specular
                != m.sheen_tint && m.specular_tint != m.sheen && m.specular_tint != m.sheen_tint
                && m.sheen != m.sheen_tint ==> #[trigger] m.spec_texture(f) != #[trigger] m.spec_texture(g),
{
}

/// Law: after a texture is replaced, sampling it gives the new value.
pub proof fn lemma_replaced_texture_is_sampled(
    before: DynamicScene,
    after: DynamicScene,
    index: int,
    value: DynamicTexture,
)
    requires
        before.wf(),
        0 <= index < before.textures.len(),
        after.textures@ == before.textures@.update(index, value),
        after.replaced() == before.replaced().update(index, true),
    ensures
        spec_dynamic_try_sample(after, index) == Some(dynamic_texture_sample(value)),
{
}

/// Law: after a texture is reset, it holds its default value again and the
/// imported texture is sampled in its place.
pub proof fn lemma_reset_texture_is_not_sampled(before: DynamicScene, after: DynamicScene, index: int)
    requires
        before.wf(),
        0 <= index < before.textures.len(),
        after.default_textures == before.default_textures,
        after.textures@ == before.textures@.update(index, before.default_textures[index]),
        after.replaced() == before.replaced().update(index, false),
    ensures
        spec_dynamic_try_sample(after, index) is None,
        after.textures[index] == after.default_textures[index],
{
}

} // verus!
