use frame_engine::memory::find_memorytype_index;
use frame_engine::pipeline::{pipeline_config, vertex_layout, DepthCompare};
use frame_engine::resources::ResourceSet;
use frame_engine::swapchain::{
    Extent2D, PresentMode, SurfaceCapabilities, SurfaceFormat, TRANSFORM_IDENTITY,
    UNDEFINED_EXTENT_WIDTH,
};

fn sample_surface() -> (SurfaceCapabilities, Vec<SurfaceFormat>, Vec<PresentMode>) {
    let caps = SurfaceCapabilities {
        min_image_count: 2,
        max_image_count: 0,
        current_extent: Extent2D { width: UNDEFINED_EXTENT_WIDTH, height: 0 },
        supported_transforms: TRANSFORM_IDENTITY,
        current_transform: TRANSFORM_IDENTITY,
    };
    let formats = vec![SurfaceFormat { format: 44, color_space: 0 }];
    let modes = vec![PresentMode::Mailbox, PresentMode::Fifo];
    (caps, formats, modes)
}

#[test]
fn rebuild_with_same_window_size_is_idempotent() {
    let (caps, formats, modes) = sample_surface();
    let window = Extent2D { width: 1024, height: 768 };
    let first = ResourceSet::build(&caps, window, &formats, &modes, 3);
    let second = ResourceSet::build(&caps, window, &formats, &modes, 3);
    assert_eq!(first.plan, second.plan);
    assert_eq!(first.viewport, second.viewport);
    assert_eq!(first.scissor, second.scissor);
    assert_eq!(first.depth_extent, second.depth_extent);
}

#[test]
fn viewport_and_scissor_cover_the_resolution() {
    let (caps, formats, modes) = sample_surface();
    let window = Extent2D { width: 320, height: 200 };
    let set = ResourceSet::build(&caps, window, &formats, &modes, 3);
    assert_eq!(set.plan.extent, Extent2D { width: 320, height: 200 });
    assert_eq!(set.viewport.x, 0);
    assert_eq!(set.viewport.y, 0);
    assert_eq!(set.viewport.width, 320);
    assert_eq!(set.viewport.height, 200);
    assert_eq!(set.scissor.offset_x, 0);
    assert_eq!(set.scissor.offset_y, 0);
    assert_eq!(set.scissor.width, 320);
    assert_eq!(set.scissor.height, 200);
    assert_eq!(set.depth_extent, set.plan.extent);
    assert_eq!(set.image_count, 3);
}

#[test]
fn minimized_window_still_builds_one_by_one() {
    let (caps, formats, modes) = sample_surface();
    let window = Extent2D { width: 0, height: 0 };
    let set = ResourceSet::build(&caps, window, &formats, &modes, 3);
    assert_eq!(set.plan.extent, Extent2D { width: 1, height: 1 });
    assert_eq!(set.viewport.width, 1);
    assert_eq!(set.viewport.height, 1);
    assert_eq!(set.depth_extent, Extent2D { width: 1, height: 1 });
}

#[test]
fn memory_type_first_match_wins() {
    // Row 0 lacks the flag, row 1 is masked out, row 2 qualifies.
    let types = vec![0b0001u32, 0b0110, 0b0110, 0b0110];
    let r = find_memorytype_index(&types, 0b1101, 0b0010);
    assert_eq!(r, Some(2));
}

#[test]
fn memory_type_none_when_nothing_qualifies() {
    let types = vec![0b0001u32, 0b0010];
    assert_eq!(find_memorytype_index(&types, 0b01, 0b0010), None);
    assert_eq!(find_memorytype_index(&Vec::new(), 0xffff_ffff, 0), None);
}

#[test]
fn memory_type_respects_all_required_flags() {
    let types = vec![0b0011u32, 0b0111];
    assert_eq!(find_memorytype_index(&types, 0b11, 0b0110), Some(1));
}

#[test]
fn vertex_record_layout() {
    let layout = vertex_layout();
    assert_eq!(layout.position_offset, 0);
    assert_eq!(layout.color_offset, 12);
    assert_eq!(layout.stride, 28);
}

#[test]
fn fixed_pipeline_choices() {
    let config = pipeline_config();
    assert!(config.triangle_list);
    assert!(config.front_face_counter_clockwise);
    assert!(config.cull_back_faces);
    assert!(config.depth_test);
    assert!(config.depth_write);
    assert_eq!(config.depth_compare, DepthCompare::LessOrEqual);
    assert_eq!(config.color_attachment_count, 1);
    assert!(!config.blend_enabled);
    assert_eq!(config.viewport_count, 1);
    assert_eq!(config.scissor_count, 1);
}
