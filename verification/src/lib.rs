//! Frame-lifecycle and resource-synchronization engine for a real-time
//! renderer: swap-chain negotiation, per-frame synchronization, explicit
//! image-layout transitions, and staged resource upload, all stated over
//! plain values so that the decisions are verified while the GPU driver
//! calls stay at the application edge.

use vstd::prelude::*;

pub mod device;
pub mod error;
pub mod events;
pub mod format;
pub mod fps_limiter;
pub mod frame;
pub mod memory;
pub mod shader;
pub mod swapchain;
pub mod transition;
pub mod upload;

verus! {

/// Clamps `value` into the inclusive range `[lo, hi]`.
pub open spec fn clamp_spec(value: u32, lo: u32, hi: u32) -> u32 {
    if value < lo {
        lo
    } else if value > hi {
        hi
    } else {
        value
    }
}

/// Componentwise clamp used when negotiating a swap-chain extent.
pub fn clamp_u32(value: u32, lo: u32, hi: u32) -> (r: u32)
    requires
        lo <= hi,
    ensures
        r == clamp_spec(value, lo, hi),
        lo <= r <= hi,
{
    if value < lo {
        lo
    } else if value > hi {
        hi
    } else {
        value
    }
}

} // verus!
