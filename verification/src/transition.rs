//! The explicit image-layout transition table.
//!
//! A transition is legal only for a fixed set of (old layout, new layout)
//! pairs, each mapped to one barrier-parameter tuple.  An unlisted pair is a
//! programmer error and is rejected with `UnsupportedLayoutTransition`
//! rather than guessed at: a wrong barrier corrupts rendering silently, so
//! the table is exhaustive by construction.

use vstd::prelude::*;
use crate::error::RenderError;

verus! {

/// How an image's memory is organized and may be accessed.
#[derive(Clone, Copy, Debug, PartialEq, Eq, Structural)]
pub enum ImageLayout {
    Undefined,
    General,
    ColorAttachmentOptimal,
    DepthStencilAttachmentOptimal,
    ShaderReadOnlyOptimal,
    TransferSrcOptimal,
    TransferDstOptimal,
    PresentSrc,
}

/// Access-mask bit: writes performed by a transfer operation.
pub const ACCESS_TRANSFER_WRITE: u32 = 0x1000;
/// Access-mask bit: reads performed by a shader.
pub const ACCESS_SHADER_READ: u32 = 0x20;
/// Access-mask bit: reads of a color attachment.
pub const ACCESS_COLOR_ATTACHMENT_READ: u32 = 0x80;
/// Access-mask bit: writes to a color attachment.
pub const ACCESS_COLOR_ATTACHMENT_WRITE: u32 = 0x100;

/// Pipeline-stage bit: start of the pipe.
pub const STAGE_TOP_OF_PIPE: u32 = 0x1;
/// Pipeline-stage bit: transfer operations.
pub const STAGE_TRANSFER: u32 = 0x1000;
/// Pipeline-stage bit: fragment shading.
pub const STAGE_FRAGMENT_SHADER: u32 = 0x80;
/// Pipeline-stage bit: color-attachment output.
pub const STAGE_COLOR_ATTACHMENT_OUTPUT: u32 = 0x400;

/// The barrier parameters a listed transition maps to.
#[derive(Clone, Copy, Debug, PartialEq, Eq, Structural)]
pub struct BarrierParams {
    pub src_access_mask: u32,
    pub dst_access_mask: u32,
    pub src_stage: u32,
    pub dst_stage: u32,
}

/// The transition table itself: `Some(params)` exactly for the listed
/// (old layout, new layout) pairs, `None` for every other pair.
pub open spec fn transition_table_spec(
    old_layout: ImageLayout,
    new_layout: ImageLayout,
) -> Option<BarrierParams> {
    if old_layout == ImageLayout::Undefined && new_layout == ImageLayout::TransferDstOptimal {
        Some(BarrierParams {
            src_access_mask: 0,
            dst_access_mask: ACCESS_TRANSFER_WRITE,
            src_stage: STAGE_TOP_OF_PIPE,
            dst_stage: STAGE_TRANSFER,
        })
    } else if old_layout == ImageLayout::TransferDstOptimal
        && new_layout == ImageLayout::ShaderReadOnlyOptimal {
        Some(BarrierParams {
            src_access_mask: ACCESS_TRANSFER_WRITE,
            dst_access_mask: ACCESS_SHADER_READ,
            src_stage: STAGE_TRANSFER,
            dst_stage: STAGE_FRAGMENT_SHADER,
        })
    } else if old_layout == ImageLayout::Undefined
        && new_layout == ImageLayout::ColorAttachmentOptimal {
        Some(BarrierParams {
            src_access_mask: 0,
            dst_access_mask: ACCESS_COLOR_ATTACHMENT_READ | ACCESS_COLOR_ATTACHMENT_WRITE,
            src_stage: STAGE_TOP_OF_PIPE,
            dst_stage: STAGE_COLOR_ATTACHMENT_OUTPUT,
        })
    } else {
        None
    }
}

/// True when the pair has an entry in the transition table.
pub open spec fn supported_transition(old_layout: ImageLayout, new_layout: ImageLayout) -> bool {
    transition_table_spec(old_layout, new_layout) is Some
}

/// Looks a transition up in the table.  Returns the table's barrier
/// parameters for a listed pair; an unlisted pair always fails with
/// `UnsupportedLayoutTransition` and never silently proceeds.
pub fn barrier_for(
    old_layout: ImageLayout,
    new_layout: ImageLayout,
) -> (r: Result<BarrierParams, RenderError>)
    ensures
        r is Ok <==> supported_transition(old_layout, new_layout),
        match r {
            Ok(p) => transition_table_spec(old_layout, new_layout) == Some(p),
            Err(e) => e == RenderError::UnsupportedLayoutTransition,
        },
{
    if old_layout == ImageLayout::Undefined && new_layout == ImageLayout::TransferDstOptimal {
        Ok(BarrierParams {
            src_access_mask: 0,
            dst_access_mask: ACCESS_TRANSFER_WRITE,
            src_stage: STAGE_TOP_OF_PIPE,
            dst_stage: STAGE_TRANSFER,
        })
    } else if old_layout == ImageLayout::TransferDstOptimal
        && new_layout == ImageLayout::ShaderReadOnlyOptimal {
        Ok(BarrierParams {
            src_access_mask: ACCESS_TRANSFER_WRITE,
            dst_access_mask: ACCESS_SHADER_READ,
            src_stage: STAGE_TRANSFER,
            dst_stage: STAGE_FRAGMENT_SHADER,
        })
    } else if old_layout == ImageLayout::Undefined
        && new_layout == ImageLayout::ColorAttachmentOptimal {
        Ok(BarrierParams {
            src_access_mask: 0,
            dst_access_mask: ACCESS_COLOR_ATTACHMENT_READ | ACCESS_COLOR_ATTACHMENT_WRITE,
            src_stage: STAGE_TOP_OF_PIPE,
            dst_stage: STAGE_COLOR_ATTACHMENT_OUTPUT,
        })
    } else {
        Err(RenderError::UnsupportedLayoutTransition)
    }
}

/// The table is exactly its three entries: every issued transition
/// matches one of them, and any other pair is rejected, never guessed at.
pub proof fn lemma_transition_table_exhaustive(old_layout: ImageLayout, new_layout: ImageLayout)
    ensures
        supported_transition(ImageLayout::Undefined, ImageLayout::TransferDstOptimal),
        supported_transition(
            ImageLayout::TransferDstOptimal,
            ImageLayout::ShaderReadOnlyOptimal,
        ),
        supported_transition(ImageLayout::Undefined, ImageLayout::ColorAttachmentOptimal),
        supported_transition(old_layout, new_layout) ==> {
            ||| (old_layout == ImageLayout::Undefined
                && new_layout == ImageLayout::TransferDstOptimal)
            ||| (old_layout == ImageLayout::TransferDstOptimal
                && new_layout == ImageLayout::ShaderReadOnlyOptimal)
            ||| (old_layout == ImageLayout::Undefined
                && new_layout == ImageLayout::ColorAttachmentOptimal)
        },
{
}

} // verus!
