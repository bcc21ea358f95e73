//! Frame-pacing utility.
//!
//! Keeps a short window of recent frame times and derives a frames-per-
//! second figure from their average.  Purely advisory: it informs the
//! caller, it is no part of the synchronization contract.  The clock
//! reads are the only outside calls; everything computed from them is
//! verified.

use vstd::prelude::*;

verus! {

/// Declares `std::time::Instant`, the opaque monotonic timestamp the
/// frame counter is based on, so its values can be held and passed.
#[verifier::external_type_specification]
#[verifier::external_body]
pub struct ExInstant(std::time::Instant);

/// Relies on `std::time::Instant::now`: an opaque reading of the
/// monotonic clock.  Nothing can be promised of its value.
pub assume_specification[ std::time::Instant::now ]() -> std::time::Instant;

/// Relies on `std::time::Instant::elapsed`: the time that passed since
/// the instant was taken.  Nothing can be promised of its value.
pub assume_specification[ std::time::Instant::elapsed ](
    instant: &std::time::Instant,
) -> core::time::Duration;

/// Relies on `core::time::Duration::subsec_micros`: the fractional part
/// of the duration in whole microseconds, documented to always be less
/// than one million.
pub assume_specification[ core::time::Duration::subsec_micros ](
    duration: &core::time::Duration,
) -> (r: u32)
    ensures
        r < 1_000_000,
;

/// How many recent frame times the average is taken over.
pub const SAMPLE_COUNT: usize = 5;

/// Microseconds in one second.
pub const MICROS_PER_SECOND: u32 = 1_000_000;

/// The frame rate preferred until the caller sets another.
pub const DEFAULT_PREFER_FPS: u32 = 60;

/// Sum of the recorded frame times.
pub open spec fn sum_samples(samples: Seq<u32>) -> int
    decreases samples.len(),
{
    if samples.len() == 0 {
        0
    } else {
        sum_samples(samples.drop_last()) + samples.last()
    }
}

/// The frames-per-second figure the sample window yields: one second
/// divided by the average frame time, i.e. `SAMPLE_COUNT` seconds
/// divided by the summed frame times; zero while no time has been
/// recorded.
pub open spec fn fps_spec(samples: Seq<u32>) -> int {
    if sum_samples(samples) == 0 {
        0
    } else {
        (SAMPLE_COUNT * MICROS_PER_SECOND) as int / sum_samples(samples)
    }
}

/// Tracks the recent frame times of the render loop.
pub struct FPSLimiter {
    /// When the running frame started.
    pub counter: std::time::Instant,
    /// Preferred frame time in microseconds.
    pub frame_time_prefer: u32,
    /// The last `SAMPLE_COUNT` frame times in microseconds.
    pub samples: Vec<u32>,
    /// Which sample the next frame time overwrites.
    pub current_frame: usize,
    /// The last recorded frame time in microseconds.
    pub delta_frame: u32,
}

impl FPSLimiter {
    /// Exactly `SAMPLE_COUNT` samples exist, each a sub-second frame
    /// time, and the cursor stays within them.
    pub open spec fn wf(self) -> bool {
        &&& self.samples@.len() == SAMPLE_COUNT
        &&& self.current_frame < SAMPLE_COUNT
        &&& forall|i: int| 0 <= i < self.samples@.len()
            ==> self.samples@[i] < MICROS_PER_SECOND
        &&& self.delta_frame < MICROS_PER_SECOND
    }

    /// Starts the counter: all samples zero, cursor at the first sample,
    /// and the preferred frame time derived from the default frame rate.
    pub fn new() -> (r: FPSLimiter)
        ensures
            r.wf(),
            r.samples@ == Seq::new(SAMPLE_COUNT as nat, |i: int| 0u32),
            r.current_frame == 0,
            r.delta_frame == 0,
            r.frame_time_prefer == MICROS_PER_SECOND as int / DEFAULT_PREFER_FPS as int,
    {
        let mut samples: Vec<u32> = Vec::new();
        let mut i: usize = 0;
        while i < SAMPLE_COUNT
            invariant
                0 <= i <= SAMPLE_COUNT,
                samples@ == Seq::new(i as nat, |j: int| 0u32),
            decreases SAMPLE_COUNT - i,
        {
            samples.push(0u32);
            assert(samples@ =~= Seq::new((i + 1) as nat, |j: int| 0u32));
            i = i + 1;
        }
        FPSLimiter {
            counter: std::time::Instant::now(),
            frame_time_prefer: MICROS_PER_SECOND / DEFAULT_PREFER_FPS,
            samples,
            current_frame: 0,
            delta_frame: 0,
        }
    }

    /// Sets the preferred frame rate; the preferred frame time becomes
    /// the matching number of microseconds.
    pub fn set_prefer_fps(&mut self, prefer_fps: u32)
        requires
            old(self).wf(),
            prefer_fps >= 1,
        ensures
            final(self).wf(),
            final(self).frame_time_prefer == MICROS_PER_SECOND as int / prefer_fps as int,
            final(self).samples@ == old(self).samples@,
            final(self).current_frame == old(self).current_frame,
            final(self).delta_frame == old(self).delta_frame,
    {
        self.frame_time_prefer = MICROS_PER_SECOND / prefer_fps;
    }

    /// Records the frame that just finished: reads the sub-second time
    /// elapsed since the last tick, restarts the clock, stores the
    /// reading in the sample the cursor points at, and advances the
    /// cursor cyclically.  The reading itself comes from the clock, so
    /// only its sub-second bound is known.
    pub fn tick_frame(&mut self)
        requires
            old(self).wf(),
        ensures
            final(self).wf(),
            final(self).delta_frame < MICROS_PER_SECOND,
            final(self).samples@
                == old(self).samples@.update(
                    old(self).current_frame as int,
                    final(self).delta_frame,
                ),
            final(self).current_frame
                == (old(self).current_frame + 1) as int % SAMPLE_COUNT as int,
            final(self).frame_time_prefer == old(self).frame_time_prefer,
    {
        let time_elapsed = self.counter.elapsed();
        self.counter = std::time::Instant::now();

        self.delta_frame = time_elapsed.subsec_micros();
        let slot = self.current_frame;
        self.samples.set(slot, self.delta_frame);
        self.current_frame = (self.current_frame + 1) % SAMPLE_COUNT;
    }

    /// The current frames-per-second figure: one second divided by the
    /// average of the recorded frame times; zero while nothing has been
    /// recorded.
    pub fn fps(&self) -> (r: u32)
        requires
            self.wf(),
        ensures
            r == fps_spec(self.samples@),
    {
        let n: usize = self.samples.len();
        let mut sum: u32 = 0;
        let mut i: usize = 0;
        while i < n
            invariant
                0 <= i <= n,
                n == self.samples@.len(),
                self.wf(),
                sum == sum_samples(self.samples@.take(i as int)),
                sum as int <= i as int * 999_999,
            decreases n - i,
        {
            proof {
                assert(self.samples@.take((i + 1) as int).drop_last()
                    =~= self.samples@.take(i as int));
                assert(self.samples@[i as int] < MICROS_PER_SECOND);
                assert(sum as int + self.samples@[i as int] as int
                    <= (i as int + 1) * 999_999) by (nonlinear_arith)
                    requires
                        sum as int <= i as int * 999_999,
                        self.samples@[i as int] as int <= 999_999,
                        0 <= i as int,
                {
                }
                assert((i as int + 1) * 999_999 <= 5 * 999_999) by (nonlinear_arith)
                    requires
                        i as int + 1 <= 5,
                {
                }
            }
            sum = sum + self.samples[i];
            i = i + 1;
        }
        proof {
            assert(self.samples@.take(n as int) =~= self.samples@);
        }
        if sum == 0 {
            0
        } else {
            ((SAMPLE_COUNT as u32) * MICROS_PER_SECOND) / sum
        }
    }

    /// The last recorded frame time in microseconds.
    pub fn delta_micros(&self) -> (r: u32)
        ensures
            r == self.delta_frame,
    {
        self.delta_frame
    }
}

} // verus!
