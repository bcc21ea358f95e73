//! Per-frame CPU/GPU synchronization.
//!
//! One synchronizer owns `max_frames` frame-in-flight slots, each with an
//! image-available semaphore, a render-finished semaphore and an in-flight
//! fence (created pre-signaled).  The driver-facing waits, acquires,
//! submissions and presents happen at the application edge; their outcomes
//! are fed to this state machine, which decides what the slot states and
//! the frame counter become.  A slot's fence is `true` here exactly when
//! the fence is signaled, i.e. no submitted work on that slot is still
//! running.

use vstd::prelude::*;
use crate::error::RenderError;

verus! {

/// Where a frame slot stands between the two entry points of the frame
/// loop: `Idle` before an image was acquired, `Recording` after.
#[derive(Clone, Copy, Debug, PartialEq, Eq, Structural)]
pub enum FramePhase {
    Idle,
    Recording,
}

/// What the driver reported for an image acquisition.
#[derive(Clone, Copy, Debug, PartialEq, Eq, Structural)]
pub enum AcquireOutcome {
    /// An image was acquired and the chain still matches the surface.
    Success { image_index: u32 },
    /// An image was acquired but the chain no longer matches the surface
    /// perfectly; the frame proceeds and a rebuild is requested.
    Suboptimal { image_index: u32 },
    /// No image: the chain must be rebuilt before the next attempt.
    OutOfDate,
}

/// What the driver reported for a presentation.
#[derive(Clone, Copy, Debug, PartialEq, Eq, Structural)]
pub enum PresentOutcome {
    Success,
    /// Presented, but the chain should be rebuilt.
    Suboptimal,
    /// Not presented: the chain must be rebuilt.
    OutOfDate,
    /// Any other presentation failure; fatal.
    Failure,
}

/// Number of submitted-but-unfenced frames a fence sequence records.
pub open spec fn count_in_flight(fences: Seq<bool>) -> int
    decreases fences.len(),
{
    if fences.len() == 0 {
        0
    } else {
        count_in_flight(fences.drop_last()) + if fences.last() {
            0int
        } else {
            1int
        }
    }
}

/// A fence vector with every slot signaled.
fn all_signaled_fences(n: usize) -> (r: Vec<bool>)
    ensures
        r@ == Seq::new(n as nat, |i: int| true),
        count_in_flight(r@) == 0,
{
    let mut fence_signaled: Vec<bool> = Vec::new();
    let mut i: usize = 0;
    while i < n
        invariant
            0 <= i <= n,
            fence_signaled@ == Seq::new(i as nat, |j: int| true),
        decreases n - i,
    {
        fence_signaled.push(true);
        assert(fence_signaled@ =~= Seq::new((i + 1) as nat, |j: int| true));
        i = i + 1;
    }
    proof {
        lemma_all_signaled_none_in_flight(fence_signaled@);
    }
    fence_signaled
}

/// Sequences acquire, record, submit and present across the
/// frame-in-flight slots and decides when the swap chain must be rebuilt.
pub struct FrameSynchronizer {
    /// Slot count N, fixed for the lifetime of the pipeline.
    pub max_frames: usize,
    /// Which slot the next frame uses; cycles in `[0, max_frames)`.
    pub current_frame: usize,
    /// Per slot: whether its in-flight fence is signaled.
    pub fence_signaled: Vec<bool>,
    /// Idle between frames, Recording after a successful acquire.
    pub phase: FramePhase,
    /// The presentable image acquired for the frame being recorded.
    pub acquired_image: Option<u32>,
    /// Set when an acquire or present asked for a swap-chain rebuild.
    pub needs_recreation: bool,
    /// Set while the one permitted rebuild-and-retry of the current frame
    /// attempt is outstanding; a second consecutive failure escalates.
    pub retried: bool,
}

impl FrameSynchronizer {
    /// Exactly `max_frames` slots exist, the frame counter stays inside
    /// them, an image is held exactly while a frame is being recorded,
    /// and a frame is recorded only on a slot whose fence was waited on
    /// — so a slot never carries two submissions at once.
    pub open spec fn wf(self) -> bool {
        &&& self.max_frames >= 1
        &&& self.current_frame < self.max_frames
        &&& self.fence_signaled@.len() == self.max_frames
        &&& (self.phase == FramePhase::Recording <==> self.acquired_image is Some)
        &&& (self.phase == FramePhase::Recording
            ==> self.fence_signaled@[self.current_frame as int])
    }

    /// How many submitted frames no signaled fence has confirmed yet.
    pub open spec fn in_flight_spec(self) -> int {
        count_in_flight(self.fence_signaled@)
    }

    /// Creates the synchronizer for `max_frames` frame-in-flight slots.
    /// Every fence starts signaled, so the first `max_frames` frames do
    /// not stall waiting on a fence that was never submitted.
    pub fn new(max_frames: usize) -> (r: FrameSynchronizer)
        requires
            max_frames >= 1,
        ensures
            r.wf(),
            r.max_frames == max_frames,
            r.current_frame == 0,
            r.fence_signaled@ == Seq::new(max_frames as nat, |i: int| true),
            r.phase == FramePhase::Idle,
            r.acquired_image is None,
            !r.needs_recreation,
            !r.retried,
            r.in_flight_spec() == 0,
    {
        let fence_signaled = all_signaled_fences(max_frames);
        FrameSynchronizer {
            max_frames,
            current_frame: 0,
            fence_signaled,
            phase: FramePhase::Idle,
            acquired_image: None,
            needs_recreation: false,
            retried: false,
        }
    }

    /// Begins a frame attempt on the current slot.  Models the blocking
    /// wait on this slot's in-flight fence — the backpressure that bounds
    /// the CPU to `max_frames` frames ahead — followed by the acquisition
    /// whose outcome the caller reports.  On out-of-date the frame is
    /// aborted, a rebuild is requested and the frame counter does not
    /// advance; a second consecutive out-of-date in the same frame attempt
    /// escalates to the fatal `SwapChainCreationFailed`.
    pub fn begin_frame(&mut self, outcome: AcquireOutcome) -> (r: Result<u32, RenderError>)
        requires
            old(self).wf(),
            old(self).phase == FramePhase::Idle,
        ensures
            final(self).wf(),
            final(self).max_frames == old(self).max_frames,
            final(self).current_frame == old(self).current_frame,
            final(self).fence_signaled@
                == old(self).fence_signaled@.update(old(self).current_frame as int, true),
            match outcome {
                AcquireOutcome::Success { image_index } => {
                    &&& r == Ok::<u32, RenderError>(image_index)
                    &&& final(self).phase == FramePhase::Recording
                    &&& final(self).acquired_image == Some(image_index)
                    &&& final(self).needs_recreation == old(self).needs_recreation
                    &&& !final(self).retried
                },
                AcquireOutcome::Suboptimal { image_index } => {
                    &&& r == Ok::<u32, RenderError>(image_index)
                    &&& final(self).phase == FramePhase::Recording
                    &&& final(self).acquired_image == Some(image_index)
                    &&& final(self).needs_recreation
                    &&& !final(self).retried
                },
                AcquireOutcome::OutOfDate => {
                    &&& final(self).phase == FramePhase::Idle
                    &&& final(self).acquired_image is None
                    &&& final(self).needs_recreation
                    &&& final(self).retried
                    &&& r == if old(self).retried {
                        Err::<u32, RenderError>(RenderError::SwapChainCreationFailed)
                    } else {
                        Err::<u32, RenderError>(RenderError::SwapChainOutOfDate)
                    }
                },
            },
    {
        let slot = self.current_frame;
        // The fence wait returns only once the slot's prior work is done.
        self.fence_signaled.set(slot, true);
        match outcome {
            AcquireOutcome::Success { image_index } => {
                self.phase = FramePhase::Recording;
                self.acquired_image = Some(image_index);
                self.retried = false;
                Ok(image_index)
            },
            AcquireOutcome::Suboptimal { image_index } => {
                self.phase = FramePhase::Recording;
                self.acquired_image = Some(image_index);
                self.needs_recreation = true;
                self.retried = false;
                Ok(image_index)
            },
            AcquireOutcome::OutOfDate => {
                self.needs_recreation = true;
                if self.retried {
                    Err(RenderError::SwapChainCreationFailed)
                } else {
                    self.retried = true;
                    Err(RenderError::SwapChainOutOfDate)
                }
            },
        }
    }

    /// Finishes the frame on the current slot.  Models the fence reset and
    /// the submission — the slot is in flight from here until the next
    /// wait on its fence — followed by the presentation whose outcome the
    /// caller reports.  The frame counter advances exactly once, because
    /// the frame was submitted, regardless of how presentation went;
    /// out-of-date and suboptimal request a rebuild, anything else that
    /// fails is fatal.
    pub fn submit_frame(&mut self, outcome: PresentOutcome) -> (r: Result<(), RenderError>)
        requires
            old(self).wf(),
            old(self).phase == FramePhase::Recording,
        ensures
            final(self).wf(),
            final(self).max_frames == old(self).max_frames,
            final(self).current_frame
                == (old(self).current_frame + 1) as int % old(self).max_frames as int,
            final(self).fence_signaled@
                == old(self).fence_signaled@.update(old(self).current_frame as int, false),
            final(self).phase == FramePhase::Idle,
            final(self).acquired_image is None,
            final(self).retried == old(self).retried,
            match outcome {
                PresentOutcome::Success => {
                    &&& r == Ok::<(), RenderError>(())
                    &&& final(self).needs_recreation == old(self).needs_recreation
                },
                PresentOutcome::Suboptimal | PresentOutcome::OutOfDate => {
                    &&& r == Err::<(), RenderError>(RenderError::SwapChainOutOfDate)
                    &&& final(self).needs_recreation
                },
                PresentOutcome::Failure => {
                    &&& r == Err::<(), RenderError>(RenderError::PresentFailed)
                    &&& final(self).needs_recreation == old(self).needs_recreation
                },
            },
    {
        let slot = self.current_frame;
        // Fence reset + submission: the slot is now in flight.
        self.fence_signaled.set(slot, false);
        self.phase = FramePhase::Idle;
        self.acquired_image = None;
        self.current_frame = (self.current_frame + 1) % self.max_frames;
        match outcome {
            PresentOutcome::Success => Ok(()),
            PresentOutcome::Suboptimal | PresentOutcome::OutOfDate => {
                self.needs_recreation = true;
                Err(RenderError::SwapChainOutOfDate)
            },
            PresentOutcome::Failure => Err(RenderError::PresentFailed),
        }
    }

    /// Records that the swap chain was rebuilt.  Rebuilding is only legal
    /// at a frame boundary, never while a frame is being recorded.
    pub fn mark_recreated(&mut self)
        requires
            old(self).wf(),
            old(self).phase == FramePhase::Idle,
        ensures
            final(self).wf(),
            !final(self).needs_recreation,
            final(self).max_frames == old(self).max_frames,
            final(self).current_frame == old(self).current_frame,
            final(self).fence_signaled@ == old(self).fence_signaled@,
            final(self).phase == old(self).phase,
            final(self).acquired_image == old(self).acquired_image,
            final(self).retried == old(self).retried,
    {
        self.needs_recreation = false;
    }

    /// Models the full device-idle wait that precedes shutdown and
    /// swap-chain recreation: it returns only when every in-flight fence
    /// has signaled, so nothing the GPU still references may be destroyed
    /// before this completes.
    pub fn wait_idle(&mut self)
        requires
            old(self).wf(),
        ensures
            final(self).wf(),
            final(self).max_frames == old(self).max_frames,
            final(self).current_frame == old(self).current_frame,
            final(self).fence_signaled@
                == Seq::new(old(self).max_frames as nat, |i: int| true),
            final(self).in_flight_spec() == 0,
            final(self).phase == old(self).phase,
            final(self).acquired_image == old(self).acquired_image,
            final(self).needs_recreation == old(self).needs_recreation,
            final(self).retried == old(self).retried,
    {
        let n = self.max_frames;
        self.fence_signaled = all_signaled_fences(n);
    }

    /// True when no submitted work is outstanding, i.e. handles owned by
    /// the frame loop may be destroyed.
    pub fn can_destroy(&self) -> (r: bool)
        requires
            self.wf(),
        ensures
            r == (self.in_flight_spec() == 0),
    {
        let n = self.fence_signaled.len();
        let mut i: usize = 0;
        let mut all_signaled = true;
        while i < n
            invariant
                0 <= i <= n,
                n == self.fence_signaled@.len(),
                all_signaled == (count_in_flight(self.fence_signaled@.take(i as int)) == 0),
            decreases n - i,
        {
            proof {
                assert(self.fence_signaled@.take((i + 1) as int).drop_last()
                    =~= self.fence_signaled@.take(i as int));
                lemma_in_flight_range(self.fence_signaled@.take(i as int));
            }
            if !self.fence_signaled[i] {
                all_signaled = false;
            }
            i = i + 1;
        }
        proof {
            assert(self.fence_signaled@.take(n as int) =~= self.fence_signaled@);
        }
        all_signaled
    }

    /// How many frames are submitted but not yet confirmed by their fence.
    pub fn frames_in_flight(&self) -> (r: usize)
        requires
            self.wf(),
        ensures
            r == self.in_flight_spec(),
    {
        let n = self.fence_signaled.len();
        let mut i: usize = 0;
        let mut count: usize = 0;
        while i < n
            invariant
                0 <= i <= n,
                n == self.fence_signaled@.len(),
                count == count_in_flight(self.fence_signaled@.take(i as int)),
                count <= i,
            decreases n - i,
        {
            proof {
                assert(self.fence_signaled@.take((i + 1) as int).drop_last()
                    =~= self.fence_signaled@.take(i as int));
            }
            if !self.fence_signaled[i] {
                count = count + 1;
            }
            i = i + 1;
        }
        proof {
            assert(self.fence_signaled@.take(n as int) =~= self.fence_signaled@);
        }
        count
    }
}

/// A fence sequence records between zero and `len` frames in flight.
pub proof fn lemma_in_flight_range(fences: Seq<bool>)
    ensures
        0 <= count_in_flight(fences) <= fences.len(),
    decreases fences.len(),
{
    if fences.len() > 0 {
        lemma_in_flight_range(fences.drop_last());
    }
}

/// When every fence is signaled, nothing is in flight.
pub proof fn lemma_all_signaled_none_in_flight(fences: Seq<bool>)
    requires
        forall|i: int| 0 <= i < fences.len() ==> fences[i],
    ensures
        count_in_flight(fences) == 0,
    decreases fences.len(),
{
    if fences.len() > 0 {
        lemma_all_signaled_none_in_flight(fences.drop_last());
    }
}

/// Changing one fence changes the in-flight count by exactly that
/// fence's contribution.
pub proof fn lemma_in_flight_update(fences: Seq<bool>, i: int, value: bool)
    requires
        0 <= i < fences.len(),
    ensures
        count_in_flight(fences.update(i, value))
            == count_in_flight(fences)
                - (if fences[i] { 0int } else { 1int })
                + (if value { 0int } else { 1int }),
    decreases fences.len(),
{
    if fences.len() > 0 {
        if i == fences.len() - 1 {
            assert(fences.update(i, value).drop_last() =~= fences.drop_last());
        } else {
            assert(fences.update(i, value).drop_last() =~= fences.drop_last().update(i, value));
            lemma_in_flight_update(fences.drop_last(), i, value);
        }
    }
}

/// One submission puts exactly one more frame in flight: the submitted
/// slot's fence was signaled (its prior work was waited on), and the
/// fence reset marks exactly that slot unfenced.
pub proof fn lemma_submission_adds_one_in_flight(fences: Seq<bool>, slot: int)
    requires
        0 <= slot < fences.len(),
        fences[slot],
    ensures
        count_in_flight(fences.update(slot, false)) == count_in_flight(fences) + 1,
{
    lemma_in_flight_update(fences, slot, false);
}

/// One fence wait takes exactly the waited slot's submission out of
/// flight, and nothing else.
pub proof fn lemma_fence_wait_removes_in_flight(fences: Seq<bool>, slot: int)
    requires
        0 <= slot < fences.len(),
    ensures
        count_in_flight(fences.update(slot, true))
            == count_in_flight(fences) - (if fences[slot] { 0int } else { 1int }),
{
    lemma_in_flight_update(fences, slot, true);
}

/// For any number of frame-in-flight slots, the synchronizer never allows
/// more than that many submitted-but-unfenced frames outstanding: each
/// slot carries at most one, because a slot is resubmitted only after the
/// blocking wait on its own fence.
pub proof fn lemma_frames_in_flight_bounded(fs: FrameSynchronizer)
    requires
        fs.wf(),
    ensures
        0 <= fs.in_flight_spec() <= fs.max_frames,
{
    lemma_in_flight_range(fs.fence_signaled@);
}

} // verus!
