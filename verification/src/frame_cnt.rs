//! The tick scheduler's clock: a frame counter whose keyframe boundaries
//! (every `interval`-th frame) gate all grid-mutating logic, decoupling the
//! simulation rate from the rendering rate.

use vstd::prelude::*;

verus! {

/// The frame counter and the keyframe interval it is measured against.
pub struct FrameCnt {
    pub frame: usize,
    pub interval: usize,
}

impl FrameCnt {
    pub fn new(interval: usize) -> (r: FrameCnt)
        requires
            interval > 0,
        ensures
            r.frame == 0,
            r.interval == interval,
    {
        FrameCnt { frame: 0, interval }
    }

    pub open spec fn spec_is_keyframe(self) -> bool {
        self.frame % self.interval == 0
    }

    /// True on the frames where the simulation advances.
    pub fn is_keyframe(&self) -> (r: bool)
        requires
            self.interval > 0,
        ensures
            r == self.spec_is_keyframe(),
    {
        self.frame % self.interval == 0
    }

    pub fn value(&self) -> (r: usize)
        ensures
            r == self.frame,
    {
        self.frame
    }

    /// Advance by one frame (wrapping at the counter's end).
    pub fn tick(&mut self)
        ensures
            final(self).interval == old(self).interval,
            final(self).frame == if old(self).frame == usize::MAX {
                0usize
            } else {
                (old(self).frame + 1) as usize
            },
    {
        if self.frame == usize::MAX {
            self.frame = 0;
        } else {
            self.frame = self.frame + 1;
        }
    }
}

} // verus!
