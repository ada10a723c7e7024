//! The reflectance models of the path tracer.
use vstd::prelude::*;

verus! {

/// The BxDF models.
#[derive(Clone, Copy, Debug, PartialEq, Eq, Structural)]
pub enum Model {
    Lambertian,
    DisneyDiffuse,
    DisneySpecular,
    DisneySheen,
}

impl Model {
    /// The name printed for the model.
    pub fn name(self) -> (name: &'static str)
        ensures
            name@ == match self {
                Model::Lambertian => "lambertian"@,
                Model::DisneyDiffuse => "disney-diffuse"@,
                Model::DisneySpecular => "disney-specular"@,
                Model::DisneySheen => "disney-sheen"@,
            },
    {
        match self {
            Model::Lambertian => "lambertian",
            Model::DisneyDiffuse => "disney-diffuse",
            Model::DisneySpecular => "disney-specular",
            Model::DisneySheen => "disney-sheen",
        }
    }
}

} // verus!
