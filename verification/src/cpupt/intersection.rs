//! Counters of the work done by ray traversal.
use vstd::prelude::*;

verus! {

/// How many rays were traced and how many box and triangle tests they took.
#[derive(Clone, Copy, Debug, Default, PartialEq, Eq, Structural)]
pub struct RayBvhHitStats {
    pub rays: u64,
    pub ray_triangle_tests: u64,
    pub ray_triangle_hits: u64,
    pub ray_aabb_tests: u64,
    pub ray_aabb_hits: u64,
}

impl RayBvhHitStats {
    /// All counters at zero.
    pub fn new() -> (s: Self)
        ensures
            s == (RayBvhHitStats {
                rays: 0,
                ray_triangle_tests: 0,
                ray_triangle_hits: 0,
                ray_aabb_tests: 0,
                ray_aabb_hits: 0,
            }),
    {
        RayBvhHitStats {
            rays: 0,
            ray_triangle_tests: 0,
            ray_triangle_hits: 0,
            ray_aabb_tests: 0,
            ray_aabb_hits: 0,
        }
    }

    /// Folds the counters of `rhs` into `self`: the four test and hit counters
    /// take the values of `rhs`, and the ray counter is left as it was.
    pub fn add_assign(&mut self, rhs: Self)
        ensures
            *final(self) == (RayBvhHitStats { rays: old(self).rays, ..rhs }),
    {
        self.ray_triangle_tests = rhs.ray_triangle_tests;
        self.ray_triangle_hits = rhs.ray_triangle_hits;
        self.ray_aabb_tests = rhs.ray_aabb_tests;
        self.ray_aabb_hits = rhs.ray_aabb_hits;
    }
}

} // verus!
