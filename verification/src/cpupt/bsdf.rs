//! Diffuse reflectance models.
use vstd::prelude::*;

verus! {

/// The diffuse reflectance models to choose from.
#[derive(Clone, Copy, Debug, PartialEq, Eq, Structural)]
pub enum DiffuseModel {
    Lambert,
    Disney,
}

impl Default for DiffuseModel {
    fn default() -> (m: Self)
        ensures
            m == DiffuseModel::Disney,
    {
        DiffuseModel::Disney
    }
}

impl DiffuseModel {
    /// The name shown for the model.
    pub fn name(&self) -> (name: &'static str)
        ensures
            name@ == match *self {
                DiffuseModel::Lambert => "Lambert"@,
                DiffuseModel::Disney => "Disney"@,
            },
    {
        match self {
            DiffuseModel::Lambert => "Lambert",
            DiffuseModel::Disney => "Disney",
        }
    }
}

} // verus!
