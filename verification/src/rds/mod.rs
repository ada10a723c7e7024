//! The renderer's scene: what is imported from a glTF document, and the part
//! of it that can be edited while rendering.
use vstd::prelude::*;

pub mod dynamic;
pub mod import;
pub mod scene;

pub use dynamic::{
    dynamic_model, dynamic_sample, dynamic_try_sample, DynamicMaterial, DynamicScene, DynamicTexture, TextureFlags,
};
pub use scene::{Camera, Material, Mesh, NodeTransform, Scene, Texture};

verus! {

/// The reflectance model of a material.
#[derive(Clone, Copy, Debug, PartialEq, Eq, Structural)]
pub enum MaterialModel {
    Diffuse,
    Disney,
}

impl MaterialModel {
    /// The name shown for the model.
    pub fn name(self) -> (name: &'static str)
        ensures
            name@ == match self {
                MaterialModel::Diffuse => "diffuse"@,
                MaterialModel::Disney => "disney"@,
            },
    {
        match self {
            MaterialModel::Diffuse => "diffuse",
            MaterialModel::Disney => "disney",
        }
    }
}

/// The textured parameters of a material.
#[derive(Clone, Copy, Debug, PartialEq, Eq, Structural)]
pub enum MaterialField {
    BaseColor,
    Metallic,
    Roughness,
    Specular,
    SpecularTint,
    Sheen,
    SheenTint,
}

} // verus!
