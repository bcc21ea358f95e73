use vk_playground::error::RenderError;
use vk_playground::frame::{AcquireOutcome, FramePhase, FrameSynchronizer, PresentOutcome};

fn run_successful_frame(fs: &mut FrameSynchronizer, image_index: u32) {
    let acquired = fs.begin_frame(AcquireOutcome::Success { image_index });
    assert_eq!(acquired, Ok(image_index));
    let presented = fs.submit_frame(PresentOutcome::Success);
    assert_eq!(presented, Ok(()));
}

#[test]
fn new_synchronizer_starts_idle_with_signaled_fences() {
    let fs = FrameSynchronizer::new(2);
    assert_eq!(fs.max_frames, 2);
    assert_eq!(fs.current_frame, 0);
    assert_eq!(fs.phase, FramePhase::Idle);
    assert_eq!(fs.frames_in_flight(), 0);
    assert!(fs.can_destroy());
    assert!(!fs.needs_recreation);
    // Fences are created pre-signaled so the first frames do not stall.
    assert_eq!(fs.fence_signaled, vec![true, true]);
}

#[test]
fn successful_frame_advances_counter_modulo_n() {
    let mut fs = FrameSynchronizer::new(2);
    run_successful_frame(&mut fs, 0);
    assert_eq!(fs.current_frame, 1);
    run_successful_frame(&mut fs, 1);
    assert_eq!(fs.current_frame, 0);
    run_successful_frame(&mut fs, 2);
    assert_eq!(fs.current_frame, 1);
}

#[test]
fn in_flight_frames_never_exceed_slot_count() {
    let n: usize = 3;
    let mut fs = FrameSynchronizer::new(n);
    for frame in 0..10u32 {
        assert!(fs.frames_in_flight() <= n);
        run_successful_frame(&mut fs, frame % 3);
        assert!(fs.frames_in_flight() <= n);
    }
}

#[test]
fn begin_frame_waits_this_slots_fence() {
    let mut fs = FrameSynchronizer::new(2);
    run_successful_frame(&mut fs, 0);
    run_successful_frame(&mut fs, 1);
    // Both slots submitted and unfenced.
    assert_eq!(fs.frames_in_flight(), 2);
    // Beginning the next frame blocks on slot 0's fence, freeing it.
    fs.begin_frame(AcquireOutcome::Success { image_index: 0 }).unwrap();
    assert_eq!(fs.frames_in_flight(), 1);
    assert_eq!(fs.fence_signaled, vec![true, false]);
}

#[test]
fn acquire_out_of_date_aborts_frame_without_advancing() {
    let mut fs = FrameSynchronizer::new(2);
    // Seven successful frames.
    for frame in 0..7u32 {
        run_successful_frame(&mut fs, frame % 3);
    }
    let slot_before = fs.current_frame;
    assert_eq!(slot_before, 1); // 7 % 2

    // Frame 8's acquire reports out-of-date: rebuild requested, no
    // submission, the frame counter stays where frame 7 left it.
    let r = fs.begin_frame(AcquireOutcome::OutOfDate);
    assert_eq!(r, Err(RenderError::SwapChainOutOfDate));
    assert!(fs.needs_recreation);
    assert_eq!(fs.current_frame, slot_before);
    assert_eq!(fs.phase, FramePhase::Idle);

    // After the rebuild the retried acquire succeeds and the counter
    // advances only through the successful submission.
    fs.mark_recreated();
    assert!(!fs.needs_recreation);
    fs.begin_frame(AcquireOutcome::Success { image_index: 0 }).unwrap();
    assert_eq!(fs.current_frame, slot_before);
    fs.submit_frame(PresentOutcome::Success).unwrap();
    assert_eq!(fs.current_frame, (slot_before + 1) % 2);
}

#[test]
fn second_consecutive_out_of_date_escalates_to_fatal() {
    let mut fs = FrameSynchronizer::new(2);
    let first = fs.begin_frame(AcquireOutcome::OutOfDate);
    assert_eq!(first, Err(RenderError::SwapChainOutOfDate));
    fs.mark_recreated();
    let second = fs.begin_frame(AcquireOutcome::OutOfDate);
    assert_eq!(second, Err(RenderError::SwapChainCreationFailed));
}

#[test]
fn successful_acquire_resets_the_retry_budget() {
    let mut fs = FrameSynchronizer::new(2);
    fs.begin_frame(AcquireOutcome::OutOfDate).unwrap_err();
    fs.mark_recreated();
    run_successful_frame(&mut fs, 0);
    // A later out-of-date is again recoverable, not an escalation.
    let r = fs.begin_frame(AcquireOutcome::OutOfDate);
    assert_eq!(r, Err(RenderError::SwapChainOutOfDate));
}

#[test]
fn suboptimal_acquire_proceeds_but_requests_rebuild() {
    let mut fs = FrameSynchronizer::new(2);
    let r = fs.begin_frame(AcquireOutcome::Suboptimal { image_index: 1 });
    assert_eq!(r, Ok(1));
    assert_eq!(fs.phase, FramePhase::Recording);
    assert!(fs.needs_recreation);
}

#[test]
fn present_out_of_date_requests_rebuild_and_still_advances() {
    let mut fs = FrameSynchronizer::new(2);
    fs.begin_frame(AcquireOutcome::Success { image_index: 0 }).unwrap();
    let r = fs.submit_frame(PresentOutcome::OutOfDate);
    assert_eq!(r, Err(RenderError::SwapChainOutOfDate));
    assert!(fs.needs_recreation);
    // The frame was submitted, so the counter advanced regardless.
    assert_eq!(fs.current_frame, 1);
    assert_eq!(fs.frames_in_flight(), 1);
}

#[test]
fn present_suboptimal_requests_rebuild() {
    let mut fs = FrameSynchronizer::new(2);
    fs.begin_frame(AcquireOutcome::Success { image_index: 0 }).unwrap();
    let r = fs.submit_frame(PresentOutcome::Suboptimal);
    assert_eq!(r, Err(RenderError::SwapChainOutOfDate));
    assert!(fs.needs_recreation);
}

#[test]
fn other_present_failures_are_fatal() {
    let mut fs = FrameSynchronizer::new(2);
    fs.begin_frame(AcquireOutcome::Success { image_index: 0 }).unwrap();
    let r = fs.submit_frame(PresentOutcome::Failure);
    assert_eq!(r, Err(RenderError::PresentFailed));
    assert!(!fs.needs_recreation);
}

#[test]
fn shutdown_mid_flight_waits_for_all_slots() {
    // All three of three slots are mid-flight when shutdown is requested.
    let n: usize = 3;
    let mut fs = FrameSynchronizer::new(n);
    for frame in 0..3u32 {
        run_successful_frame(&mut fs, frame);
    }
    assert_eq!(fs.frames_in_flight(), 3);
    assert!(!fs.can_destroy());

    // The device-idle wait completes before any handle may be destroyed.
    fs.wait_idle();
    assert_eq!(fs.frames_in_flight(), 0);
    assert!(fs.can_destroy());
}
