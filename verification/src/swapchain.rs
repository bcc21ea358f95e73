//! Swap-chain negotiation: surface-format, present-mode, extent and
//! image-count selection from a freshly queried capability snapshot.
//!
//! The snapshot is re-queried on every (re)build and never cached across a
//! resize, so every function here is a pure decision over the values the
//! caller just read from the surface.

use vstd::prelude::*;
use crate::error::RenderError;

verus! {

/// A (color format, color space) pair offered by the surface, as the
/// numeric identifiers the driver reports.
#[derive(Clone, Copy, Debug, PartialEq, Eq, Structural)]
pub struct SurfaceFormat {
    pub format: u32,
    pub color_space: u32,
}

/// Identifier of the preferred color format (8-bit BGRA with sRGB encoding).
pub const FORMAT_B8G8R8A8_SRGB: u32 = 50;
/// Identifier of the preferred color space (nonlinear sRGB).
pub const COLOR_SPACE_SRGB_NONLINEAR: u32 = 0;

/// How presentable images are handed to the display compositor.
#[derive(Clone, Copy, Debug, PartialEq, Eq, Structural)]
pub enum PresentMode {
    /// Presents immediately; may tear.
    Immediate,
    /// Low-latency triple buffering: the preferred mode.
    Mailbox,
    /// First-in first-out queue: guaranteed to be available.
    Fifo,
    /// FIFO that tears instead of waiting when a frame is late.
    FifoRelaxed,
}

/// A width/height pair in pixels.
#[derive(Clone, Copy, Debug, PartialEq, Eq, Structural)]
pub struct Extent2D {
    pub width: u32,
    pub height: u32,
}

/// Sentinel width meaning the surface lets the swap chain pick the extent.
pub const EXTENT_UNDEFINED: u32 = 0xFFFF_FFFF;

/// Snapshot of the surface capabilities, re-queried on every (re)build.
/// `max_image_count == 0` means the image count is unbounded above.
#[derive(Clone, Copy, Debug, PartialEq, Eq, Structural)]
pub struct SurfaceCapabilities {
    pub min_image_count: u32,
    pub max_image_count: u32,
    pub current_extent: Extent2D,
    pub min_image_extent: Extent2D,
    pub max_image_extent: Extent2D,
}

/// How swap-chain images are shared between the graphics and present
/// queue families.
#[derive(Clone, Copy, Debug, PartialEq, Eq, Structural)]
pub enum SharingMode {
    /// One queue family owns the images.
    Exclusive,
    /// The graphics and present families access them concurrently.
    Concurrent,
}

/// Everything the negotiation decides; the driver call that builds the
/// chain takes exactly these values.
#[derive(Clone, Copy, Debug, PartialEq, Eq, Structural)]
pub struct SwapChainConfig {
    pub format: SurfaceFormat,
    pub present_mode: PresentMode,
    pub extent: Extent2D,
    pub image_count: u32,
    pub sharing_mode: SharingMode,
}

/// A capability snapshot that a conforming driver can report: the extent
/// bounds are ordered, a fixed current extent lies within them, and the
/// counts leave room for the customary one extra image.
pub open spec fn caps_wf(caps: SurfaceCapabilities) -> bool {
    &&& caps.min_image_extent.width <= caps.max_image_extent.width
    &&& caps.min_image_extent.height <= caps.max_image_extent.height
    &&& caps.min_image_count >= 1
    &&& caps.min_image_count < EXTENT_UNDEFINED
    &&& (caps.max_image_count > 0 ==> caps.max_image_count >= caps.min_image_count)
    &&& (caps.current_extent.width != EXTENT_UNDEFINED ==> {
        &&& caps.min_image_extent.width <= caps.current_extent.width
            <= caps.max_image_extent.width
        &&& caps.min_image_extent.height <= caps.current_extent.height
            <= caps.max_image_extent.height
    })
}

/// Tests at run time whether a queried snapshot is well formed, so a
/// malformed driver answer can be rejected before negotiation begins.
pub fn caps_wf_check(caps: &SurfaceCapabilities) -> (r: bool)
    ensures
        r == caps_wf(*caps),
{
    caps.min_image_extent.width <= caps.max_image_extent.width
        && caps.min_image_extent.height <= caps.max_image_extent.height
        && caps.min_image_count >= 1
        && caps.min_image_count < EXTENT_UNDEFINED
        && (caps.max_image_count == 0 || caps.max_image_count >= caps.min_image_count)
        && (caps.current_extent.width == EXTENT_UNDEFINED
            || (caps.min_image_extent.width <= caps.current_extent.width
                && caps.current_extent.width <= caps.max_image_extent.width
                && caps.min_image_extent.height <= caps.current_extent.height
                && caps.current_extent.height <= caps.max_image_extent.height))
}

/// The preferred (format, color space) pair.
pub open spec fn is_preferred_format(f: SurfaceFormat) -> bool {
    f.format == FORMAT_B8G8R8A8_SRGB && f.color_space == COLOR_SPACE_SRGB_NONLINEAR
}

/// True when the list offers the preferred pair.
pub open spec fn has_preferred_format(formats: Seq<SurfaceFormat>) -> bool {
    exists|i: int| 0 <= i < formats.len() && is_preferred_format(formats[i])
}

/// The pair format selection settles on: the preferred pair when the list
/// contains it, else the first listed pair (a deterministic fallback, not
/// an error).
pub open spec fn chosen_format(formats: Seq<SurfaceFormat>) -> SurfaceFormat
    recommends
        formats.len() > 0,
{
    if has_preferred_format(formats) {
        SurfaceFormat { format: FORMAT_B8G8R8A8_SRGB, color_space: COLOR_SPACE_SRGB_NONLINEAR }
    } else {
        formats[0]
    }
}

/// Picks the surface format: the preferred pair when offered, else the
/// first offered pair.
pub fn choose_swapchain_format(available_formats: &Vec<SurfaceFormat>) -> (r: SurfaceFormat)
    requires
        available_formats@.len() > 0,
    ensures
        r == chosen_format(available_formats@),
{
    let n: usize = available_formats.len();
    let mut i: usize = 0;
    while i < n
        invariant
            0 <= i <= n,
            n == available_formats@.len(),
            forall|j: int| 0 <= j < i ==> !is_preferred_format(available_formats@[j]),
        decreases n - i,
    {
        let f = available_formats[i];
        if f.format == FORMAT_B8G8R8A8_SRGB && f.color_space == COLOR_SPACE_SRGB_NONLINEAR {
            assert(is_preferred_format(available_formats@[i as int]));
            return f;
        }
        i = i + 1;
    }
    assert(!has_preferred_format(available_formats@));
    available_formats[0]
}

/// True when the list offers the low-latency mailbox mode.
pub open spec fn has_mailbox(modes: Seq<PresentMode>) -> bool {
    exists|i: int| 0 <= i < modes.len() && modes[i] == PresentMode::Mailbox
}

/// The mode present-mode selection settles on: mailbox when offered, else
/// the always-available FIFO mode.
pub open spec fn chosen_present_mode(modes: Seq<PresentMode>) -> PresentMode {
    if has_mailbox(modes) {
        PresentMode::Mailbox
    } else {
        PresentMode::Fifo
    }
}

/// Picks the present mode: mailbox when offered, else FIFO.
pub fn choose_swapchain_present_mode(available_modes: &Vec<PresentMode>) -> (r: PresentMode)
    ensures
        r == chosen_present_mode(available_modes@),
{
    let n: usize = available_modes.len();
    let mut i: usize = 0;
    while i < n
        invariant
            0 <= i <= n,
            n == available_modes@.len(),
            forall|j: int| 0 <= j < i ==> available_modes@[j] != PresentMode::Mailbox,
        decreases n - i,
    {
        let m = available_modes[i];
        if m == PresentMode::Mailbox {
            assert(available_modes@[i as int] == PresentMode::Mailbox);
            return m;
        }
        i = i + 1;
    }
    assert(!has_mailbox(available_modes@));
    PresentMode::Fifo
}

/// The extent extent selection settles on: a fixed current extent is used
/// verbatim; otherwise the window size is clamped componentwise into the
/// advertised bounds.
pub open spec fn chosen_extent(
    caps: SurfaceCapabilities,
    window_width: u32,
    window_height: u32,
) -> Extent2D {
    if caps.current_extent.width != EXTENT_UNDEFINED {
        caps.current_extent
    } else {
        Extent2D {
            width: crate::clamp_spec(
                window_width,
                caps.min_image_extent.width,
                caps.max_image_extent.width,
            ),
            height: crate::clamp_spec(
                window_height,
                caps.min_image_extent.height,
                caps.max_image_extent.height,
            ),
        }
    }
}

/// True when `e` lies componentwise within the snapshot's extent bounds.
pub open spec fn extent_within_bounds(e: Extent2D, caps: SurfaceCapabilities) -> bool {
    &&& caps.min_image_extent.width <= e.width <= caps.max_image_extent.width
    &&& caps.min_image_extent.height <= e.height <= caps.max_image_extent.height
}

/// Picks the swap-chain extent from the snapshot and the caller-supplied
/// window size.
pub fn choose_swapchain_extent(
    caps: &SurfaceCapabilities,
    window_width: u32,
    window_height: u32,
) -> (r: Extent2D)
    requires
        caps_wf(*caps),
    ensures
        r == chosen_extent(*caps, window_width, window_height),
        extent_within_bounds(r, *caps),
{
    if caps.current_extent.width != EXTENT_UNDEFINED {
        caps.current_extent
    } else {
        Extent2D {
            width: crate::clamp_u32(
                window_width,
                caps.min_image_extent.width,
                caps.max_image_extent.width,
            ),
            height: crate::clamp_u32(
                window_height,
                caps.min_image_extent.height,
                caps.max_image_extent.height,
            ),
        }
    }
}

/// The image count the chain is asked for: one more than the minimum, then
/// clamped to the maximum when the maximum is bounded (0 = unbounded).
pub open spec fn chosen_image_count(caps: SurfaceCapabilities) -> u32
    recommends
        caps_wf(caps),
{
    let wanted = (caps.min_image_count + 1) as u32;
    if caps.max_image_count > 0 && wanted > caps.max_image_count {
        caps.max_image_count
    } else {
        wanted
    }
}

/// Picks the number of presentable images.
pub fn choose_image_count(caps: &SurfaceCapabilities) -> (r: u32)
    requires
        caps_wf(*caps),
    ensures
        r == chosen_image_count(*caps),
        r >= caps.min_image_count,
        caps.max_image_count > 0 ==> r <= caps.max_image_count,
{
    let wanted: u32 = caps.min_image_count + 1;
    if caps.max_image_count > 0 && wanted > caps.max_image_count {
        caps.max_image_count
    } else {
        wanted
    }
}

/// Runs the whole negotiation over a fresh snapshot: format, present mode,
/// extent, image count, and the sharing mode that follows from whether the
/// graphics and present queue families coincide.  Fails with
/// `SwapChainCreationFailed` exactly when the surface offers no format.
pub fn plan_swapchain(
    caps: &SurfaceCapabilities,
    available_formats: &Vec<SurfaceFormat>,
    available_modes: &Vec<PresentMode>,
    window_width: u32,
    window_height: u32,
    graphics_family: u32,
    present_family: u32,
) -> (r: Result<SwapChainConfig, RenderError>)
    requires
        caps_wf(*caps),
    ensures
        r is Ok <==> available_formats@.len() > 0,
        match r {
            Ok(config) => {
                &&& config.format == chosen_format(available_formats@)
                &&& config.present_mode == chosen_present_mode(available_modes@)
                &&& config.extent == chosen_extent(*caps, window_width, window_height)
                &&& extent_within_bounds(config.extent, *caps)
                &&& config.image_count == chosen_image_count(*caps)
                &&& config.sharing_mode == (if graphics_family != present_family {
                    SharingMode::Concurrent
                } else {
                    SharingMode::Exclusive
                })
            },
            Err(e) => e == RenderError::SwapChainCreationFailed,
        },
{
    if available_formats.len() == 0 {
        return Err(RenderError::SwapChainCreationFailed);
    }
    let format = choose_swapchain_format(available_formats);
    let present_mode = choose_swapchain_present_mode(available_modes);
    let extent = choose_swapchain_extent(caps, window_width, window_height);
    let image_count = choose_image_count(caps);
    let sharing_mode = if graphics_family != present_family {
        SharingMode::Concurrent
    } else {
        SharingMode::Exclusive
    };
    Ok(SwapChainConfig { format, present_mode, extent, image_count, sharing_mode })
}

/// However many times the chain is rebuilt, each rebuild re-queries the
/// capabilities and yields an extent clamped within the snapshot's
/// advertised bounds.
pub proof fn lemma_recreated_extent_within_bounds(
    caps: SurfaceCapabilities,
    window_width: u32,
    window_height: u32,
)
    requires
        caps_wf(caps),
    ensures
        extent_within_bounds(chosen_extent(caps, window_width, window_height), caps),
{
}

/// Format selection is deterministic: a list containing the preferred pair
/// always yields the preferred pair, and a list without it always yields
/// the first listed pair.
pub proof fn lemma_format_selection_deterministic(formats: Seq<SurfaceFormat>)
    requires
        formats.len() > 0,
    ensures
        has_preferred_format(formats) ==> is_preferred_format(chosen_format(formats)),
        !has_preferred_format(formats) ==> chosen_format(formats) == formats[0],
{
}

} // verus!
