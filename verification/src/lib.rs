//! Raydiance: the integer and text logic of a small physically based renderer,
//! with its contracts proved by Verus.
use vstd::prelude::*;

pub mod blog;
pub mod cpupt;
pub mod debug;
pub mod editor;
pub mod glb;
pub mod gltf;
pub mod img;
pub mod offline;
pub mod raytracing;
pub mod rds;
pub mod text;
pub mod vulkan;

verus! {

} // verus!
