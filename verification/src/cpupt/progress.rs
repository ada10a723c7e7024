//! The decisions of the render loop: start over when the input changes, skip
//! invalid inputs, render one sample per turn until the image has all its
//! samples, then rest.
use vstd::prelude::*;

verus! {

/// What the render loop does in one turn.
#[derive(Clone, Copy, Debug, PartialEq, Eq, Structural)]
pub enum RenderStep {
    /// The input cannot be rendered; try again on the next turn.
    Skip,
    /// Render the sample `sample_index` of every pixel; `done` when it is the
    /// last sample of the image.
    Render { sample_index: u32, done: bool },
    /// Every sample has been rendered; wait for a new input.
    Idle,
}

/// How many samples of the current input have been rendered.
#[derive(Clone, Copy, Debug, PartialEq, Eq, Structural)]
pub struct SampleProgress {
    pub sample_index: u32,
}

/// The step of one turn, and the number of samples rendered after it, from
/// `sample_index` samples rendered before it.
pub open spec fn spec_step(sample_index: u32, input_changed: bool, input_valid: bool, samples_per_pixel: u32) -> (
    u32,
    RenderStep,
) {
    let i = if input_changed {
        0
    } else {
        sample_index
    };
    if !input_valid {
        (i, RenderStep::Skip)
    } else if i < samples_per_pixel {
        ((i + 1) as u32, RenderStep::Render { sample_index: i, done: i + 1 == samples_per_pixel })
    } else {
        (i, RenderStep::Idle)
    }
}

impl SampleProgress {
    /// Nothing rendered yet.
    pub fn new() -> (p: Self)
        ensures
            p.sample_index == 0,
    {
        SampleProgress { sample_index: 0 }
    }

    /// Decides one turn of the render loop: a changed input starts over from
    /// the first sample; an input without pixels is skipped; otherwise the
    /// next sample is rendered while some are missing.
    pub fn step(&mut self, input_changed: bool, input_valid: bool, samples_per_pixel: u32) -> (s:
        RenderStep)
        ensures
            (final(self).sample_index, s) == spec_step(
                old(self).sample_index,
                input_changed,
                input_valid,
                samples_per_pixel,
            ),
    {
        if input_changed {
            self.sample_index = 0;
        }
        if !input_valid {
            return RenderStep::Skip;
        }
        if self.sample_index < samples_per_pixel {
            let sample_index = self.sample_index;
            self.sample_index += 1;
            RenderStep::Render { sample_index, done: self.sample_index == samples_per_pixel }
        } else {
            RenderStep::Idle
        }
    }
}

/// The steps of `n` turns on an unchanged, valid input, from `sample_index`
/// samples rendered.
pub open spec fn unchanged_turns(sample_index: u32, n: nat, samples_per_pixel: u32) -> Seq<RenderStep>
    decreases n,
{
    if n == 0 {
        seq![]
    } else {
        let (next, s) = spec_step(sample_index, false, true, samples_per_pixel);
        seq![s] + unchanged_turns(next, (n - 1) as nat, samples_per_pixel)
    }
}

/// A run of `n` turns has `n` steps.
proof fn lemma_unchanged_turns_len(sample_index: u32, n: nat, samples_per_pixel: u32)
    ensures
        unchanged_turns(sample_index, n, samples_per_pixel).len() == n,
    decreases n,
{
    if n > 0 {
        let (next, s) = spec_step(sample_index, false, true, samples_per_pixel);
        lemma_unchanged_turns_len(next, (n - 1) as nat, samples_per_pixel);
    }
}

/// Turn `k` of a run of unchanged turns renders the sample after those
/// already rendered, until all are.
proof fn lemma_unchanged_turn(sample_index: u32, n: nat, samples_per_pixel: u32, k: int)
    requires
        0 <= k < n,
    ensures
        unchanged_turns(sample_index, n, samples_per_pixel)[k] == if sample_index + k
            < samples_per_pixel {
            RenderStep::Render {
                sample_index: (sample_index + k) as u32,
                done: sample_index + k + 1 == samples_per_pixel,
            }
        } else {
            RenderStep::Idle
        },
    decreases n,
{
    let step = spec_step(sample_index, false, true, samples_per_pixel);
    let rest = unchanged_turns(step.0, (n - 1) as nat, samples_per_pixel);
    lemma_unchanged_turns_len(step.0, (n - 1) as nat, samples_per_pixel);
    assert(unchanged_turns(sample_index, n, samples_per_pixel) == seq![step.1] + rest);
    if k > 0 {
        lemma_unchanged_turn(step.0, (n - 1) as nat, samples_per_pixel, k - 1);
        assert((seq![step.1] + rest)[k] == rest[k - 1]);
    }
}

/// Law: once the input changes to a valid one, the following turns render
/// the samples `0, 1, ..., samples_per_pixel - 1` in order, the last one
/// marked done, and then rest, for as long as the input stays the same.
pub proof fn lemma_samples_rendered_once_in_order(
    sample_index: u32,
    samples_per_pixel: u32,
    n: nat,
    k: int,
)
    requires
        0 <= k <= n,
    ensures
        ({
            let (next, first) = spec_step(sample_index, true, true, samples_per_pixel);
            let turns = seq![first] + unchanged_turns(next, n, samples_per_pixel);
            turns[k] == if k < samples_per_pixel {
                RenderStep::Render { sample_index: k as u32, done: k + 1 == samples_per_pixel }
            } else {
                RenderStep::Idle
            }
        }),
{
    let step = spec_step(sample_index, true, true, samples_per_pixel);
    let rest = unchanged_turns(step.0, n, samples_per_pixel);
    lemma_unchanged_turns_len(step.0, n, samples_per_pixel);
    if k > 0 {
        lemma_unchanged_turn(step.0, n, samples_per_pixel, k - 1);
        assert((seq![step.1] + rest)[k] == rest[k - 1]);
    }
}

} // verus!
