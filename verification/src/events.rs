//! Decisions of the window event loop.
//!
//! The OS event loop and the window handle live at the application edge;
//! each event it receives is reduced to a plain value and handed here,
//! and the returned action is what the loop performs.  Every action that
//! destroys or rebuilds anything is preceded by the device-idle wait.

use vstd::prelude::*;

verus! {

/// A window-loop event, reduced to plain values.
#[derive(Clone, Copy, Debug, PartialEq, Eq, Structural)]
pub enum LoopEvent {
    /// The user asked to close the window.
    CloseRequested,
    /// A key went down; only escape matters to the loop.
    KeyPressed { escape: bool },
    /// The window was resized.
    Resized { width: u32, height: u32 },
    /// All pending events were handled; a redraw may be requested.
    MainEventsCleared,
    /// The window asked to be redrawn.
    RedrawRequested,
    /// The event loop is being torn down.
    LoopDestroyed,
}

/// What the loop does in response to an event.
#[derive(Clone, Copy, Debug, PartialEq, Eq, Structural)]
pub enum LoopAction {
    /// Wait for the device to go idle, then leave the loop.
    WaitIdleThenExit,
    /// Wait for the device to go idle, then rebuild the extent-dependent
    /// objects for the new size.
    WaitIdleThenResize { width: u32, height: u32 },
    /// Ask the window for a redraw.
    RequestRedraw,
    /// Draw one frame and record its frame time.
    DrawFrameAndTick,
    /// Wait for the device to go idle before teardown continues.
    WaitIdle,
    /// Nothing to do.
    Ignore,
}

/// The action each event maps to.
pub open spec fn action_for_event(event: LoopEvent) -> LoopAction {
    match event {
        LoopEvent::CloseRequested => LoopAction::WaitIdleThenExit,
        LoopEvent::KeyPressed { escape } => if escape {
            LoopAction::WaitIdleThenExit
        } else {
            LoopAction::Ignore
        },
        LoopEvent::Resized { width, height } => LoopAction::WaitIdleThenResize { width, height },
        LoopEvent::MainEventsCleared => LoopAction::RequestRedraw,
        LoopEvent::RedrawRequested => LoopAction::DrawFrameAndTick,
        LoopEvent::LoopDestroyed => LoopAction::WaitIdle,
    }
}

/// Decides what the event loop does with one event.  Closing — by
/// request or by the escape key — and resizing wait for the device to go
/// idle first, so no handle is destroyed or rebuilt while the GPU still
/// references it.
pub fn handle_loop_event(event: &LoopEvent) -> (a: LoopAction)
    ensures
        a == action_for_event(*event),
{
    match event {
        LoopEvent::CloseRequested => LoopAction::WaitIdleThenExit,
        LoopEvent::KeyPressed { escape } => if *escape {
            LoopAction::WaitIdleThenExit
        } else {
            LoopAction::Ignore
        },
        LoopEvent::Resized { width, height } => LoopAction::WaitIdleThenResize {
            width: *width,
            height: *height,
        },
        LoopEvent::MainEventsCleared => LoopAction::RequestRedraw,
        LoopEvent::RedrawRequested => LoopAction::DrawFrameAndTick,
        LoopEvent::LoopDestroyed => LoopAction::WaitIdle,
    }
}

} // verus!
