//! Settings of the earlier CPU ray tracer.
use vstd::prelude::*;

verus! {

/// Settings of a ray-tracing run.
#[derive(Clone, Copy, Debug, PartialEq, Eq, Structural)]
pub struct Params {
    pub samples_per_pixel: u32,
    pub max_bounce_count: u32,
    pub seed: u64,
}

impl Default for Params {
    fn default() -> (p: Self)
        ensures
            p.samples_per_pixel == 64,
            p.max_bounce_count == 4,
            p.seed == 0,
    {
        Params { samples_per_pixel: 64, max_bounce_count: 4, seed: 0 }
    }
}

} // verus!
