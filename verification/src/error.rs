//! Error taxonomy of the rendering core.
//!
//! Swap-chain invalidation is the only recoverable condition: it is handled
//! locally by rebuilding the chain.  Every other category is fatal and the
//! application terminates after draining the device.

use vstd::prelude::*;

verus! {

/// Everything that can go wrong during bring-up or the frame loop.
#[derive(Clone, Copy, Debug, PartialEq, Eq, Structural)]
pub enum RenderError {
    /// No physical adapter satisfies the device requirements.
    NoSuitableAdapter,
    /// The logical device could not be created.
    DeviceCreationFailed,
    /// The surface changed under the swap chain; rebuild and retry.
    SwapChainOutOfDate,
    /// The swap chain could not be (re)built.
    SwapChainCreationFailed,
    /// No advertised memory type carries the requested property flags.
    NoCompatibleMemoryType,
    /// Shader bytecode whose length is not a multiple of the code-word size.
    MalformedShaderBinary,
    /// A layout transition outside the explicit transition table.
    UnsupportedLayoutTransition,
    /// Presentation failed for a reason other than an out-of-date surface.
    PresentFailed,
}

impl RenderError {
    /// The one error that is handled locally instead of ending the process.
    pub open spec fn is_recoverable_spec(self) -> bool {
        self == RenderError::SwapChainOutOfDate
    }

    /// True exactly for the out-of-date signal, which triggers swap-chain
    /// recreation; every other category is fatal.
    pub fn is_recoverable(&self) -> (r: bool)
        ensures
            r == self.is_recoverable_spec(),
    {
        match self {
            RenderError::SwapChainOutOfDate => true,
            _ => false,
        }
    }

    /// The message shown for each category.
    pub open spec fn message_spec(self) -> Seq<char> {
        match self {
            RenderError::NoSuitableAdapter => "no suitable GPU adapter found"@,
            RenderError::DeviceCreationFailed => "failed to create logical device"@,
            RenderError::SwapChainOutOfDate => "swap chain out of date"@,
            RenderError::SwapChainCreationFailed => "failed to create swap chain"@,
            RenderError::NoCompatibleMemoryType => "no compatible memory type"@,
            RenderError::MalformedShaderBinary => "malformed shader binary"@,
            RenderError::UnsupportedLayoutTransition => "unsupported layout transition"@,
            RenderError::PresentFailed => "presentation failed"@,
        }
    }

    /// A descriptive message identifying which stage failed.
    pub fn message(&self) -> (r: &'static str)
        ensures
            r@ == self.message_spec(),
    {
        match self {
            RenderError::NoSuitableAdapter => "no suitable GPU adapter found",
            RenderError::DeviceCreationFailed => "failed to create logical device",
            RenderError::SwapChainOutOfDate => "swap chain out of date",
            RenderError::SwapChainCreationFailed => "failed to create swap chain",
            RenderError::NoCompatibleMemoryType => "no compatible memory type",
            RenderError::MalformedShaderBinary => "malformed shader binary",
            RenderError::UnsupportedLayoutTransition => "unsupported layout transition",
            RenderError::PresentFailed => "presentation failed",
        }
    }
}

} // verus!
