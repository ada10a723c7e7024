//! Frame sequences of the debug animations.
use vstd::prelude::*;

verus! {

/// The frames played forward, then backward: a copy of each frame in order,
/// followed by the frames themselves from the last to the first.
pub fn create_boomerang<T: Clone>(frames: Vec<T>) -> (out: Vec<T>)
    ensures
        out.len() == 2 * frames.len(),
        forall|i: int| 0 <= i < frames.len() ==> cloned::<T>(frames[i], #[trigger] out[i]),
        forall|i: int|
            0 <= i < frames.len() ==> #[trigger] out[frames.len() + i] == frames[frames.len() - 1 - i],
{
    let ghost initial = frames@;
    let mut out = frames.clone();
    let mut rest = frames;
    while rest.len() > 0
        invariant
            rest@ == initial.subrange(0, rest.len() as int),
            out.len() == 2 * initial.len() - rest.len(),
            rest.len() <= initial.len(),
            forall|i: int| 0 <= i < initial.len() ==> cloned::<T>(initial[i], #[trigger] out[i]),
            forall|i: int|
                0 <= i < initial.len() - rest.len() ==> #[trigger] out[initial.len() + i]
                    == initial[initial.len() - 1 - i],
        decreases rest.len(),
    {
        let frame = rest.pop().unwrap();
        out.push(frame);
    }
    out
}

} // verus!
