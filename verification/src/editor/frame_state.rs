//! Counting frames, and which of the frames in flight is being recorded.
use vstd::prelude::*;

verus! {

/// The number of frames the renderer records ahead.
pub const MAX_CONCURRENT_FRAMES: u32 = 3;

/// The frames drawn so far and the slot of the current one.
#[derive(Clone, Copy, Debug, PartialEq, Eq, Structural)]
pub struct FrameCounter {
    pub frame_index: u64,
    pub frame_count: u64,
}

impl FrameCounter {
    /// No frame drawn yet.
    pub fn new() -> (c: Self)
        ensures
            c.frame_index == 0 && c.frame_count == 0,
    {
        FrameCounter { frame_index: 0, frame_count: 0 }
    }

    /// Counts one more frame; its slot cycles through the frames in flight.
    pub fn advance(&mut self)
        requires
            old(self).frame_count < u64::MAX,
        ensures
            final(self).frame_count == old(self).frame_count + 1,
            final(self).frame_index == final(self).frame_count as int % (MAX_CONCURRENT_FRAMES as int),
    {
        self.frame_count += 1;
        self.frame_index = self.frame_count % (MAX_CONCURRENT_FRAMES as u64);
    }

    pub fn frame_index(&self) -> (i: u64)
        ensures
            i == self.frame_index,
    {
        self.frame_index
    }
}

/// Law: the slot of a frame is always one of the frames in flight, and
/// consecutive frames use consecutive slots, wrapping around.
pub proof fn lemma_frame_slots_cycle(count: u64)
    requires
        count < u64::MAX,
    ensures
        count as int % (MAX_CONCURRENT_FRAMES as int) < MAX_CONCURRENT_FRAMES,
        (count + 1) % (MAX_CONCURRENT_FRAMES as int) == (count as int % (
        MAX_CONCURRENT_FRAMES as int) + 1) % (MAX_CONCURRENT_FRAMES as int),
{
}

} // verus!
