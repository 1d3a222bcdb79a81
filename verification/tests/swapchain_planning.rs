use frame_engine::swapchain::{
    desired_image_count, plan_swapchain, resolve_extent, select_present_mode, select_pre_transform,
    select_surface_format, Extent2D, PresentMode, SurfaceCapabilities, SurfaceFormat,
    TRANSFORM_IDENTITY, UNDEFINED_EXTENT_WIDTH,
};

fn caps_800_600(min_image_count: u32, max_image_count: u32) -> SurfaceCapabilities {
    SurfaceCapabilities {
        min_image_count,
        max_image_count,
        current_extent: Extent2D { width: 800, height: 600 },
        supported_transforms: TRANSFORM_IDENTITY,
        current_transform: TRANSFORM_IDENTITY,
    }
}

#[test]
fn image_count_unbounded_above() {
    assert_eq!(desired_image_count(2, 0), 3);
}

#[test]
fn image_count_clamped_to_maximum() {
    assert_eq!(desired_image_count(2, 2), 2);
    assert_eq!(desired_image_count(3, 3), 3);
}

#[test]
fn image_count_below_maximum_unclamped() {
    assert_eq!(desired_image_count(2, 8), 3);
}

#[test]
fn defined_extent_used_as_reported() {
    let r = resolve_extent(
        Extent2D { width: 800, height: 600 },
        Extent2D { width: 5, height: 5 },
    );
    assert_eq!(r, Extent2D { width: 800, height: 600 });
}

#[test]
fn undefined_extent_takes_window_size() {
    let r = resolve_extent(
        Extent2D { width: UNDEFINED_EXTENT_WIDTH, height: 0 },
        Extent2D { width: 640, height: 480 },
    );
    assert_eq!(r, Extent2D { width: 640, height: 480 });
}

#[test]
fn zero_window_clamps_to_one_by_one() {
    let r = resolve_extent(
        Extent2D { width: UNDEFINED_EXTENT_WIDTH, height: 77 },
        Extent2D { width: 0, height: 0 },
    );
    assert_eq!(r, Extent2D { width: 1, height: 1 });
}

#[test]
fn mailbox_preferred_when_offered() {
    let modes = vec![PresentMode::Fifo, PresentMode::Immediate, PresentMode::Mailbox];
    assert_eq!(select_present_mode(&modes), PresentMode::Mailbox);
}

#[test]
fn fifo_fallback_without_mailbox() {
    let modes = vec![PresentMode::Fifo, PresentMode::FifoRelaxed];
    assert_eq!(select_present_mode(&modes), PresentMode::Fifo);
    assert_eq!(select_present_mode(&Vec::new()), PresentMode::Fifo);
}

#[test]
fn first_supported_format_wins() {
    let formats = vec![
        SurfaceFormat { format: 44, color_space: 0 },
        SurfaceFormat { format: 50, color_space: 1 },
    ];
    assert_eq!(select_surface_format(&formats), SurfaceFormat { format: 44, color_space: 0 });
}

#[test]
fn identity_transform_preferred() {
    assert_eq!(select_pre_transform(TRANSFORM_IDENTITY | 0x4, 0x4), TRANSFORM_IDENTITY);
    assert_eq!(select_pre_transform(0x4, 0x4), 0x4);
}

#[test]
fn plan_for_plain_surface() {
    let caps = caps_800_600(2, 0);
    let formats = vec![SurfaceFormat { format: 44, color_space: 0 }];
    let modes = vec![PresentMode::Fifo];
    let plan = plan_swapchain(&caps, Extent2D { width: 800, height: 600 }, &formats, &modes);
    assert_eq!(plan.image_count, 3);
    assert_eq!(plan.extent, Extent2D { width: 800, height: 600 });
    assert_eq!(plan.present_mode, PresentMode::Fifo);
    assert_eq!(plan.pre_transform, TRANSFORM_IDENTITY);
    assert_eq!(plan.surface_format, SurfaceFormat { format: 44, color_space: 0 });
}
