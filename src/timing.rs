use vstd::prelude::*;

verus! {

/// Time between the current frame and the previous one, in microseconds.
#[derive(Clone, Copy, PartialEq, Eq, Debug)]
pub struct Timing {
    /// Microseconds since the previous frame.
    pub delta_time: u64,
    /// Absolute timestamp of the previous frame, in microseconds.
    pub last_frame: u64,
}

impl Default for Timing {
    /// Both fields start at zero: the first frame's delta measures from the
    /// zero baseline and carries no meaning.
    fn default() -> (r: Timing)
        ensures
            r.delta_time == 0,
            r.last_frame == 0,
    {
        Timing { delta_time: 0, last_frame: 0 }
    }
}

impl Timing {
    /// Marks the start of a frame at `now` on a monotonic clock.
    pub fn advance(&mut self, now: u64)
        requires
            old(self).last_frame <= now,
        ensures
            final(self).delta_time == now - old(self).last_frame,
            final(self).last_frame == now,
    {
        self.delta_time = now - self.last_frame;
        self.last_frame = now;
    }
}

} // verus!
