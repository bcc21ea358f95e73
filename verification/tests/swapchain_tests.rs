use vk_playground::error::RenderError;
use vk_playground::swapchain::{
    choose_image_count, choose_swapchain_extent, choose_swapchain_format,
    choose_swapchain_present_mode, plan_swapchain, Extent2D, PresentMode, SharingMode,
    SurfaceCapabilities, SurfaceFormat, COLOR_SPACE_SRGB_NONLINEAR, EXTENT_UNDEFINED,
    FORMAT_B8G8R8A8_SRGB,
};

fn caps_with_fixed_extent(width: u32, height: u32) -> SurfaceCapabilities {
    SurfaceCapabilities {
        min_image_count: 2,
        max_image_count: 8,
        current_extent: Extent2D { width, height },
        min_image_extent: Extent2D { width: 1, height: 1 },
        max_image_extent: Extent2D { width: 4096, height: 4096 },
    }
}

fn caps_with_free_extent() -> SurfaceCapabilities {
    SurfaceCapabilities {
        min_image_count: 2,
        max_image_count: 8,
        current_extent: Extent2D { width: EXTENT_UNDEFINED, height: 600 },
        min_image_extent: Extent2D { width: 320, height: 240 },
        max_image_extent: Extent2D { width: 1920, height: 1080 },
    }
}

#[test]
fn preferred_format_is_chosen_when_listed() {
    let formats = vec![
        SurfaceFormat { format: 44, color_space: 0 },
        SurfaceFormat { format: FORMAT_B8G8R8A8_SRGB, color_space: COLOR_SPACE_SRGB_NONLINEAR },
        SurfaceFormat { format: 97, color_space: 1 },
    ];
    let chosen = choose_swapchain_format(&formats);
    assert_eq!(chosen.format, FORMAT_B8G8R8A8_SRGB);
    assert_eq!(chosen.color_space, COLOR_SPACE_SRGB_NONLINEAR);
}

#[test]
fn first_format_is_chosen_when_preferred_absent() {
    let formats = vec![
        SurfaceFormat { format: 44, color_space: 0 },
        SurfaceFormat { format: 97, color_space: 1 },
    ];
    let chosen = choose_swapchain_format(&formats);
    assert_eq!(chosen, SurfaceFormat { format: 44, color_space: 0 });
}

#[test]
fn preferred_format_number_without_preferred_space_is_not_enough() {
    let formats = vec![
        SurfaceFormat { format: 37, color_space: 5 },
        SurfaceFormat { format: FORMAT_B8G8R8A8_SRGB, color_space: 7 },
    ];
    let chosen = choose_swapchain_format(&formats);
    assert_eq!(chosen, SurfaceFormat { format: 37, color_space: 5 });
}

#[test]
fn fifo_only_list_selects_fifo() {
    let modes = vec![PresentMode::Fifo];
    assert_eq!(choose_swapchain_present_mode(&modes), PresentMode::Fifo);
}

#[test]
fn mailbox_is_selected_when_offered() {
    let modes = vec![PresentMode::Fifo, PresentMode::Mailbox];
    assert_eq!(choose_swapchain_present_mode(&modes), PresentMode::Mailbox);
}

#[test]
fn present_mode_falls_back_to_fifo() {
    let modes = vec![PresentMode::Immediate, PresentMode::FifoRelaxed];
    assert_eq!(choose_swapchain_present_mode(&modes), PresentMode::Fifo);
    assert_eq!(choose_swapchain_present_mode(&Vec::new()), PresentMode::Fifo);
}

#[test]
fn fixed_current_extent_is_used_verbatim() {
    let caps = caps_with_fixed_extent(800, 600);
    let extent = choose_swapchain_extent(&caps, 1234, 5678);
    assert_eq!(extent, Extent2D { width: 800, height: 600 });
}

#[test]
fn free_extent_clamps_window_size_componentwise() {
    let caps = caps_with_free_extent();
    assert_eq!(
        choose_swapchain_extent(&caps, 100, 99999),
        Extent2D { width: 320, height: 1080 }
    );
    assert_eq!(
        choose_swapchain_extent(&caps, 99999, 100),
        Extent2D { width: 1920, height: 240 }
    );
    assert_eq!(
        choose_swapchain_extent(&caps, 800, 600),
        Extent2D { width: 800, height: 600 }
    );
}

#[test]
fn repeated_recreation_keeps_extent_within_bounds() {
    let caps = caps_with_free_extent();
    let requests = [(0u32, 0u32), (1u32, 1u32), (5000, 5000), (320, 1080), (1920, 240)];
    for (w, h) in requests {
        let mut extent = Extent2D { width: w, height: h };
        for _ in 0..4 {
            extent = choose_swapchain_extent(&caps, extent.width, extent.height);
            assert!(caps.min_image_extent.width <= extent.width);
            assert!(extent.width <= caps.max_image_extent.width);
            assert!(caps.min_image_extent.height <= extent.height);
            assert!(extent.height <= caps.max_image_extent.height);
        }
    }
}

#[test]
fn image_count_is_min_plus_one_clamped_to_max() {
    let mut caps = caps_with_free_extent();
    caps.min_image_count = 2;
    caps.max_image_count = 8;
    assert_eq!(choose_image_count(&caps), 3);

    caps.min_image_count = 3;
    caps.max_image_count = 3;
    assert_eq!(choose_image_count(&caps), 3);

    caps.min_image_count = 4;
    caps.max_image_count = 0; // unbounded
    assert_eq!(choose_image_count(&caps), 5);
}

#[test]
fn plan_swapchain_combines_all_choices() {
    let caps = caps_with_free_extent();
    let formats = vec![
        SurfaceFormat { format: 44, color_space: 0 },
        SurfaceFormat { format: FORMAT_B8G8R8A8_SRGB, color_space: COLOR_SPACE_SRGB_NONLINEAR },
    ];
    let modes = vec![PresentMode::Fifo, PresentMode::Mailbox];
    let config = plan_swapchain(&caps, &formats, &modes, 800, 600, 0, 1).unwrap();
    assert_eq!(config.format.format, FORMAT_B8G8R8A8_SRGB);
    assert_eq!(config.present_mode, PresentMode::Mailbox);
    assert_eq!(config.extent, Extent2D { width: 800, height: 600 });
    assert_eq!(config.image_count, 3);
    assert_eq!(config.sharing_mode, SharingMode::Concurrent);
}

#[test]
fn plan_swapchain_exclusive_when_families_coincide() {
    let caps = caps_with_fixed_extent(640, 480);
    let formats = vec![SurfaceFormat { format: 44, color_space: 0 }];
    let modes = vec![PresentMode::Fifo];
    let config = plan_swapchain(&caps, &formats, &modes, 0, 0, 2, 2).unwrap();
    assert_eq!(config.sharing_mode, SharingMode::Exclusive);
    assert_eq!(config.extent, Extent2D { width: 640, height: 480 });
}

#[test]
fn plan_swapchain_fails_without_formats() {
    let caps = caps_with_fixed_extent(640, 480);
    let modes = vec![PresentMode::Fifo];
    let err = plan_swapchain(&caps, &Vec::new(), &modes, 0, 0, 0, 0).unwrap_err();
    assert_eq!(err, RenderError::SwapChainCreationFailed);
}

#[test]
fn capability_check_accepts_conforming_snapshots() {
    assert!(vk_playground::swapchain::caps_wf_check(&caps_with_free_extent()));
    assert!(vk_playground::swapchain::caps_wf_check(&caps_with_fixed_extent(800, 600)));
}

#[test]
fn capability_check_rejects_malformed_snapshots() {
    let mut caps = caps_with_free_extent();
    caps.min_image_count = 0;
    assert!(!vk_playground::swapchain::caps_wf_check(&caps));

    let mut caps = caps_with_free_extent();
    caps.min_image_extent.width = 5000;
    assert!(!vk_playground::swapchain::caps_wf_check(&caps));

    let mut caps = caps_with_free_extent();
    caps.max_image_count = 1; // below the minimum of 2
    assert!(!vk_playground::swapchain::caps_wf_check(&caps));

    // A fixed current extent outside the advertised bounds.
    let mut caps = caps_with_fixed_extent(8000, 600);
    caps.max_image_extent = Extent2D { width: 4096, height: 4096 };
    assert!(!vk_playground::swapchain::caps_wf_check(&caps));
}

#[test]
fn clamp_holds_at_the_boundaries() {
    assert_eq!(vk_playground::clamp_u32(5, 10, 20), 10);
    assert_eq!(vk_playground::clamp_u32(10, 10, 20), 10);
    assert_eq!(vk_playground::clamp_u32(15, 10, 20), 15);
    assert_eq!(vk_playground::clamp_u32(20, 10, 20), 20);
    assert_eq!(vk_playground::clamp_u32(25, 10, 20), 20);
    assert_eq!(vk_playground::clamp_u32(7, 7, 7), 7);
}

#[test]
fn only_an_undefined_width_frees_the_extent() {
    // The sentinel is keyed on the width alone; a fixed width is used
    // verbatim even with an extreme height.
    let mut caps = caps_with_fixed_extent(800, 600);
    caps.current_extent.height = 600;
    let extent = choose_swapchain_extent(&caps, 1, 1);
    assert_eq!(extent, Extent2D { width: 800, height: 600 });
}
