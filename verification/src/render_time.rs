//! Render time per frame and on average.

use vstd::prelude::*;
use crate::timer::{elapsed, elapsed_spec};

verus! {

/// A render time in nanoseconds.
#[derive(Clone, Copy, Debug, PartialEq, Eq)]
pub struct RenderTime(pub u64);

/// Measures the time between frames, on a clock that the caller reads.
pub struct RenderTimeDiagnostic {
    start_time: u64,
    prev_time: u64,
    frame: usize,
}

/// The mathematical content of a [`RenderTimeDiagnostic`].
pub struct RenderTimeView {
    pub start_time: u64,
    pub prev_time: u64,
    pub frame: nat,
}

impl RenderTimeView {
    /// The mean time per frame between the start and the last frame counted;
    /// there is none before the first frame.
    pub open spec fn average(self) -> Option<RenderTime> {
        if self.frame == 0 {
            None
        } else {
            Some(
                RenderTime(
                    (elapsed_spec(self.prev_time, self.start_time) as nat / self.frame) as u64,
                ),
            )
        }
    }
}

impl View for RenderTimeDiagnostic {
    type V = RenderTimeView;

    closed spec fn view(&self) -> RenderTimeView {
        RenderTimeView {
            start_time: self.start_time,
            prev_time: self.prev_time,
            frame: self.frame as nat,
        }
    }
}

impl RenderTimeDiagnostic {
    /// A diagnostic that starts at `now` with no frame counted.
    pub fn new(now: u64) -> (diagnostic: RenderTimeDiagnostic)
        ensures
            diagnostic@ == (RenderTimeView { start_time: now, prev_time: now, frame: 0 }),
    {
        RenderTimeDiagnostic { start_time: now, prev_time: now, frame: 0 }
    }

    /// Counts the frame that ends at `now` and returns the time it took.
    pub fn increment(&mut self, now: u64) -> (time: RenderTime)
        requires
            old(self)@.frame < usize::MAX,
        ensures
            time.0 == elapsed_spec(now, old(self)@.prev_time),
            final(self)@ == (RenderTimeView {
                start_time: old(self)@.start_time,
                prev_time: now,
                frame: old(self)@.frame + 1,
            }),
    {
        self.frame += 1;
        let delta: u64 = elapsed(now, self.prev_time);
        self.prev_time = now;
        RenderTime(delta)
    }

    /// The time since the last counted frame, without counting one.
    pub fn peak(&self, now: u64) -> (time: RenderTime)
        ensures
            time.0 == elapsed_spec(now, self@.prev_time),
    {
        RenderTime(elapsed(now, self.prev_time))
    }

    /// The mean render time over the frames counted so far.
    pub fn avg_render_time(&self) -> (time: Option<RenderTime>)
        ensures
            time == self@.average(),
    {
        if self.frame == 0 {
            None
        } else {
            let delta: u64 = elapsed(self.prev_time, self.start_time);
            let frames: u64 = self.frame as u64;
            Some(RenderTime(delta / frames))
        }
    }
}

} // verus!
