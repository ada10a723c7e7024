//! Hemisphere sampling strategies.
use vstd::prelude::*;

verus! {

/// How directions on the hemisphere are drawn.
#[derive(Clone, Copy, Debug, PartialEq, Eq, Structural)]
pub enum HemisphereSampler {
    Uniform,
    Cosine,
}

impl HemisphereSampler {
    /// The name shown for the sampler.
    pub fn name(self) -> (name: &'static str)
        ensures
            name@ == match self {
                HemisphereSampler::Uniform => "Uniform"@,
                HemisphereSampler::Cosine => "Cosine"@,
            },
    {
        match self {
            HemisphereSampler::Uniform => "Uniform",
            HemisphereSampler::Cosine => "Cosine",
        }
    }
}

impl Default for HemisphereSampler {
    fn default() -> (s: Self)
        ensures
            s == HemisphereSampler::Cosine,
    {
        HemisphereSampler::Cosine
    }
}

} // verus!
