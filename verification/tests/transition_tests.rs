use vk_playground::error::RenderError;
use vk_playground::transition::{
    barrier_for, ImageLayout, ACCESS_COLOR_ATTACHMENT_READ, ACCESS_COLOR_ATTACHMENT_WRITE,
    ACCESS_SHADER_READ, ACCESS_TRANSFER_WRITE, STAGE_COLOR_ATTACHMENT_OUTPUT,
    STAGE_FRAGMENT_SHADER, STAGE_TOP_OF_PIPE, STAGE_TRANSFER,
};

#[test]
fn undefined_to_transfer_dst_matches_table() {
    let p = barrier_for(ImageLayout::Undefined, ImageLayout::TransferDstOptimal).unwrap();
    assert_eq!(p.src_access_mask, 0);
    assert_eq!(p.dst_access_mask, ACCESS_TRANSFER_WRITE);
    assert_eq!(p.src_stage, STAGE_TOP_OF_PIPE);
    assert_eq!(p.dst_stage, STAGE_TRANSFER);
}

#[test]
fn transfer_dst_to_shader_read_matches_table() {
    let p = barrier_for(
        ImageLayout::TransferDstOptimal,
        ImageLayout::ShaderReadOnlyOptimal,
    )
    .unwrap();
    assert_eq!(p.src_access_mask, ACCESS_TRANSFER_WRITE);
    assert_eq!(p.dst_access_mask, ACCESS_SHADER_READ);
    assert_eq!(p.src_stage, STAGE_TRANSFER);
    assert_eq!(p.dst_stage, STAGE_FRAGMENT_SHADER);
}

#[test]
fn undefined_to_color_attachment_matches_table() {
    let p = barrier_for(ImageLayout::Undefined, ImageLayout::ColorAttachmentOptimal).unwrap();
    assert_eq!(p.src_access_mask, 0);
    assert_eq!(
        p.dst_access_mask,
        ACCESS_COLOR_ATTACHMENT_READ | ACCESS_COLOR_ATTACHMENT_WRITE
    );
    assert_eq!(p.src_stage, STAGE_TOP_OF_PIPE);
    assert_eq!(p.dst_stage, STAGE_COLOR_ATTACHMENT_OUTPUT);
}

#[test]
fn unlisted_pairs_always_fail() {
    let unlisted = [
        (ImageLayout::ShaderReadOnlyOptimal, ImageLayout::TransferDstOptimal),
        (ImageLayout::TransferDstOptimal, ImageLayout::Undefined),
        (ImageLayout::Undefined, ImageLayout::PresentSrc),
        (ImageLayout::General, ImageLayout::TransferDstOptimal),
        (ImageLayout::ColorAttachmentOptimal, ImageLayout::PresentSrc),
        (ImageLayout::Undefined, ImageLayout::Undefined),
        (ImageLayout::TransferSrcOptimal, ImageLayout::ShaderReadOnlyOptimal),
        (ImageLayout::Undefined, ImageLayout::DepthStencilAttachmentOptimal),
    ];
    for (old_layout, new_layout) in unlisted {
        let r = barrier_for(old_layout, new_layout);
        assert_eq!(r, Err(RenderError::UnsupportedLayoutTransition));
    }
}

#[test]
fn only_out_of_date_is_recoverable() {
    assert!(RenderError::SwapChainOutOfDate.is_recoverable());
    let fatal = [
        RenderError::NoSuitableAdapter,
        RenderError::DeviceCreationFailed,
        RenderError::SwapChainCreationFailed,
        RenderError::NoCompatibleMemoryType,
        RenderError::MalformedShaderBinary,
        RenderError::UnsupportedLayoutTransition,
        RenderError::PresentFailed,
    ];
    for e in fatal {
        assert!(!e.is_recoverable());
    }
}

#[test]
fn error_messages_identify_the_stage() {
    assert_eq!(
        RenderError::NoSuitableAdapter.message(),
        "no suitable GPU adapter found"
    );
    assert_eq!(
        RenderError::UnsupportedLayoutTransition.message(),
        "unsupported layout transition"
    );
    assert_eq!(RenderError::SwapChainOutOfDate.message(), "swap chain out of date");
    assert_eq!(RenderError::MalformedShaderBinary.message(), "malformed shader binary");
}
