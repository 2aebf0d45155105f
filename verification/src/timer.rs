//! Frame timing over a sliding window of frame starts.
//!
//! Times are nanoseconds on a clock that the caller reads; the timer itself
//! never looks at a clock.

use vstd::prelude::*;

verus! {

/// The time from `earlier` to `later`, or nothing where the clock ran back.
pub open spec fn elapsed_spec(later: u64, earlier: u64) -> u64 {
    if later >= earlier {
        (later - earlier) as u64
    } else {
        0
    }
}

/// The time from `earlier` to `later`, cut off at zero.
pub fn elapsed(later: u64, earlier: u64) -> (span: u64)
    ensures
        span == elapsed_spec(later, earlier),
{
    if later >= earlier {
        later - earlier
    } else {
        0
    }
}

/// What a timer reports once a full window of frames has passed. The caller
/// divides each span by its frame count for the averages.
#[derive(Clone, Copy, Debug, PartialEq, Eq)]
pub struct FrameReport {
    /// Number of frame starts in the window.
    pub window_frames: usize,
    /// Time from the first to the last frame start of the window.
    pub window_nanos: u64,
    /// Number of frames since the timer was made.
    pub total_frames: usize,
    /// Time from the timer's start to the last frame start of the window.
    pub total_nanos: u64,
    /// Time between the last two frame starts of the window.
    pub current_nanos: u64,
}

/// The mathematical content of a [`Timer`].
pub struct TimerView {
    pub app_start: u64,
    pub frame_starts: Seq<u64>,
    pub frame_count: nat,
    pub log_frequency: nat,
}

impl TimerView {
    /// The window holds one start per counted frame and the start it was made
    /// with, until it is as long as the report interval.
    pub open spec fn well_formed(self) -> bool {
        &&& self.log_frequency >= 2
        &&& self.log_frequency <= usize::MAX
        &&& self.frame_count <= usize::MAX
        &&& self.frame_starts.len() == if self.frame_count + 1 < self.log_frequency {
            self.frame_count + 1
        } else {
            self.log_frequency
        }
    }

    /// The timer after one more frame that starts at `now`: the start joins
    /// the window, and the oldest one leaves once the window would outgrow
    /// the report interval.
    pub open spec fn after_frame(self, now: u64) -> TimerView {
        let pushed = self.frame_starts.push(now);
        TimerView {
            app_start: self.app_start,
            frame_starts: if pushed.len() > self.log_frequency {
                pushed.remove(0)
            } else {
                pushed
            },
            frame_count: self.frame_count + 1,
            log_frequency: self.log_frequency,
        }
    }

    /// A report is due whenever the frame count is a multiple of the interval.
    pub open spec fn report_due(self) -> bool {
        self.frame_count % self.log_frequency == 0
    }

    /// The report over the current window.
    pub open spec fn report(self) -> FrameReport {
        let last = self.log_frequency - 1;
        FrameReport {
            window_frames: self.log_frequency as usize,
            window_nanos: elapsed_spec(self.frame_starts[last], self.frame_starts[0]),
            total_frames: self.frame_count as usize,
            total_nanos: elapsed_spec(self.frame_starts[last], self.app_start),
            current_nanos: elapsed_spec(self.frame_starts[last], self.frame_starts[last - 1]),
        }
    }

    /// What logging yields: the report when one is due, else nothing.
    pub open spec fn log_result(self) -> Option<FrameReport> {
        if self.report_due() {
            Some(self.report())
        } else {
            None
        }
    }
}

/// Counts frames and keeps the most recent frame starts.
pub struct Timer {
    app_start: u64,
    frame_starts: Vec<u64>,
    frame_count: usize,
    log_frequency: usize,
}

impl View for Timer {
    type V = TimerView;

    closed spec fn view(&self) -> TimerView {
        TimerView {
            app_start: self.app_start,
            frame_starts: self.frame_starts@,
            frame_count: self.frame_count as nat,
            log_frequency: self.log_frequency as nat,
        }
    }
}

impl Timer {
    /// A timer made at time `now`: no frame counted yet, a window that holds
    /// `now` alone, and a report every 2000 frames.
    pub fn new(now: u64) -> (timer: Timer)
        ensures
            timer@.well_formed(),
            timer@ == (TimerView {
                app_start: now,
                frame_starts: seq![now],
                frame_count: 0,
                log_frequency: 2000,
            }),
    {
        let mut frame_starts: Vec<u64> = Vec::new();
        frame_starts.push(now);
        assert(frame_starts@ =~= seq![now]);
        Timer { app_start: now, frame_starts, frame_count: 0, log_frequency: 2000 }
    }

    /// Counts the frame that starts at `now` and says what there is to log.
    pub fn update(&mut self, now: u64) -> (report: Option<FrameReport>)
        requires
            old(self)@.well_formed(),
            old(self)@.frame_count < usize::MAX,
        ensures
            final(self)@ == old(self)@.after_frame(now),
            final(self)@.well_formed(),
            report == final(self)@.log_result(),
    {
        self.increment_frame(now);
        self.log()
    }

    /// The time from the start of the frame before the current one to `now`.
    pub fn dt(&self, now: u64) -> (span: u64)
        requires
            self@.frame_starts.len() >= 2,
        ensures
            span == elapsed_spec(now, self@.frame_starts[self@.frame_starts.len() - 2]),
    {
        let len: usize = self.frame_starts.len();
        elapsed(now, self.frame_starts[len - 2])
    }

    /// Counts one frame that starts at `now`.
    pub fn increment_frame(&mut self, now: u64)
        requires
            old(self)@.well_formed(),
            old(self)@.frame_count < usize::MAX,
        ensures
            final(self)@ == old(self)@.after_frame(now),
            final(self)@.well_formed(),
    {
        self.frame_count += 1;
        self.frame_starts.push(now);
        if self.frame_starts.len() > self.log_frequency {
            self.frame_starts.remove(0);
        }
    }

    /// The report over the window, every `log_frequency` frames; nothing in
    /// between.
    pub fn log(&self) -> (report: Option<FrameReport>)
        requires
            self@.well_formed(),
            self@.frame_count > 0,
        ensures
            report == self@.log_result(),
    {
        if self.frame_count % self.log_frequency != 0 {
            return None;
        }
        assert(self.frame_count >= self.log_frequency) by {
            if self.frame_count < self.log_frequency {
                vstd::arithmetic::div_mod::lemma_small_mod(
                    self.frame_count as nat,
                    self.log_frequency as nat,
                );
            }
        }
        let i_last: usize = self.log_frequency - 1;
        let last: u64 = self.frame_starts[i_last];
        Some(
            FrameReport {
                window_frames: self.log_frequency,
                window_nanos: elapsed(last, self.frame_starts[0]),
                total_frames: self.frame_count,
                total_nanos: elapsed(last, self.app_start),
                current_nanos: elapsed(last, self.frame_starts[i_last - 1]),
            },
        )
    }

    /// Frames counted so far.
    pub fn frame_count(&self) -> (count: usize)
        ensures
            count == self@.frame_count,
    {
        self.frame_count
    }

    /// Number of frame starts in the window.
    pub fn window_len(&self) -> (len: usize)
        ensures
            len == self@.frame_starts.len(),
    {
        self.frame_starts.len()
    }
}

} // verus!
