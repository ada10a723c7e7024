//! Kinds of the textures of a binary glTF scene.
use vstd::prelude::*;

verus! {

/// Which material parameter a texture holds.
#[derive(Clone, Copy, Debug, PartialEq, Eq, Structural)]
pub enum TextureKind {
    BaseColor,
    Metallic,
    Roughness,
}

} // verus!
