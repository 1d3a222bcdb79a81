use frame_engine::frame::{
    frame_slot, AcquireOutcome, FrameEngine, FrameResult, PresentOutcome, RebuildInputs,
    FRAMES_IN_FLIGHT, UNIFORM_WORDS,
};
use frame_engine::swapchain::{
    Extent2D, PresentMode, SurfaceCapabilities, SurfaceFormat, SwapchainPlan, TRANSFORM_IDENTITY,
    UNDEFINED_EXTENT_WIDTH,
};
use frame_engine::sync::{FenceStatus, SubmissionPhase};

fn sample_plan(width: u32, height: u32) -> SwapchainPlan {
    SwapchainPlan {
        surface_format: SurfaceFormat { format: 44, color_space: 0 },
        image_count: 3,
        extent: Extent2D { width, height },
        pre_transform: TRANSFORM_IDENTITY,
        present_mode: PresentMode::Fifo,
    }
}

fn rebuild_inputs(window_width: u32, window_height: u32) -> RebuildInputs {
    RebuildInputs {
        caps: SurfaceCapabilities {
            min_image_count: 2,
            max_image_count: 0,
            current_extent: Extent2D { width: UNDEFINED_EXTENT_WIDTH, height: 0 },
            supported_transforms: TRANSFORM_IDENTITY,
            current_transform: TRANSFORM_IDENTITY,
        },
        window_extent: Extent2D { width: window_width, height: window_height },
        formats: vec![SurfaceFormat { format: 44, color_space: 0 }],
        modes: vec![PresentMode::Fifo],
        realized_image_count: 3,
    }
}

fn payload(value: u32) -> Vec<u32> {
    vec![value; UNIFORM_WORDS]
}

#[test]
fn every_frame_uses_the_single_flight_slot() {
    assert_eq!(FRAMES_IN_FLIGHT, 1);
    assert_eq!(frame_slot(0), 0);
    assert_eq!(frame_slot(1), 0);
    assert_eq!(frame_slot(u64::MAX), 0);
}

#[test]
fn engine_starts_with_one_slot_per_image() {
    let engine = FrameEngine::new(sample_plan(800, 600), 3);
    assert_eq!(engine.uniform_slots.len(), 3);
    assert_eq!(engine.resources.image_count, 3);
    assert!(!engine.resize_dependent_component_rebuild_needed);
    assert_eq!(engine.draw_commands.fence, FenceStatus::Signaled);
}

#[test]
fn out_of_date_acquire_skips_the_frame_and_flags_rebuild() {
    let mut engine = FrameEngine::new(sample_plan(800, 600), 3);
    let r = engine.draw_frame(
        &None,
        AcquireOutcome::OutOfDate,
        &payload(1),
        PresentOutcome::Presented { suboptimal: false },
    );
    assert_eq!(r, FrameResult::SkippedOutOfDate);
    assert!(engine.resize_dependent_component_rebuild_needed);
    // Nothing was drawn or presented: no submission is in flight and no
    // uniform slot was written.
    assert_eq!(engine.draw_commands.phase, SubmissionPhase::Idle);
    assert_eq!(engine.draw_commands.fence, FenceStatus::Signaled);
    for slot in engine.uniform_slots.iter() {
        assert!(slot.contents.is_empty());
    }
}

#[test]
fn clean_frame_writes_the_acquired_slot_and_submits() {
    let mut engine = FrameEngine::new(sample_plan(800, 600), 3);
    let r = engine.draw_frame(
        &None,
        AcquireOutcome::Success { image_index: 1, suboptimal: false },
        &payload(7),
        PresentOutcome::Presented { suboptimal: false },
    );
    assert_eq!(r, FrameResult::Drawn { image_index: 1 });
    assert!(!engine.resize_dependent_component_rebuild_needed);
    assert_eq!(engine.uniform_slots[1].contents, payload(7));
    assert!(engine.uniform_slots[0].contents.is_empty());
    assert!(engine.uniform_slots[2].contents.is_empty());
    assert_eq!(engine.draw_commands.phase, SubmissionPhase::InFlight);
    assert_eq!(engine.draw_commands.fence, FenceStatus::Unsignaled);
}

#[test]
fn suboptimal_acquire_draws_but_flags_rebuild() {
    let mut engine = FrameEngine::new(sample_plan(800, 600), 3);
    let r = engine.draw_frame(
        &None,
        AcquireOutcome::Success { image_index: 0, suboptimal: true },
        &payload(3),
        PresentOutcome::Presented { suboptimal: false },
    );
    assert_eq!(r, FrameResult::Drawn { image_index: 0 });
    assert!(engine.resize_dependent_component_rebuild_needed);
    assert_eq!(engine.uniform_slots[0].contents, payload(3));
}

#[test]
fn suboptimal_present_flags_rebuild_for_the_next_frame() {
    let mut engine = FrameEngine::new(sample_plan(800, 600), 3);
    let r = engine.draw_frame(
        &None,
        AcquireOutcome::Success { image_index: 2, suboptimal: false },
        &payload(9),
        PresentOutcome::OutOfDate,
    );
    assert_eq!(r, FrameResult::Drawn { image_index: 2 });
    assert!(engine.resize_dependent_component_rebuild_needed);
}

#[test]
fn resize_to_zero_window_rebuilds_at_one_by_one() {
    let mut engine = FrameEngine::new(sample_plan(800, 600), 3);
    engine.on_resize();
    assert!(engine.resize_dependent_component_rebuild_needed);
    let r = engine.draw_frame(
        &Some(rebuild_inputs(0, 0)),
        AcquireOutcome::Success { image_index: 0, suboptimal: false },
        &payload(2),
        PresentOutcome::Presented { suboptimal: false },
    );
    assert_eq!(r, FrameResult::Drawn { image_index: 0 });
    assert!(!engine.resize_dependent_component_rebuild_needed);
    assert_eq!(engine.resources.plan.extent, Extent2D { width: 1, height: 1 });
    assert_eq!(engine.resources.depth_extent, Extent2D { width: 1, height: 1 });
    assert_eq!(engine.resources.viewport.width, 1);
    assert_eq!(engine.resources.viewport.height, 1);
    // The rebuild ran the one-shot setup submission (the depth buffer's
    // layout transition).
    assert_eq!(engine.setup_commands.phase, SubmissionPhase::InFlight);
}

#[test]
fn rebuild_recomputes_the_uniform_slot_count() {
    let mut engine = FrameEngine::new(sample_plan(800, 600), 3);
    engine.on_resize();
    let mut inputs = rebuild_inputs(640, 480);
    inputs.caps.max_image_count = 2;
    inputs.realized_image_count = 2;
    let r = engine.draw_frame(
        &Some(inputs),
        AcquireOutcome::Success { image_index: 1, suboptimal: false },
        &payload(5),
        PresentOutcome::Presented { suboptimal: false },
    );
    assert_eq!(r, FrameResult::Drawn { image_index: 1 });
    assert_eq!(engine.resources.image_count, 2);
    assert_eq!(engine.resources.plan.image_count, 2);
    assert_eq!(engine.uniform_slots.len(), 2);
    assert_eq!(engine.uniform_slots[1].contents, payload(5));
    assert!(engine.uniform_slots[0].contents.is_empty());
}

#[test]
fn two_frames_reuse_the_draw_context_after_the_fence() {
    let mut engine = FrameEngine::new(sample_plan(800, 600), 2);
    let first = engine.draw_frame(
        &None,
        AcquireOutcome::Success { image_index: 0, suboptimal: false },
        &payload(1),
        PresentOutcome::Presented { suboptimal: false },
    );
    assert_eq!(first, FrameResult::Drawn { image_index: 0 });
    assert_eq!(engine.draw_commands.phase, SubmissionPhase::InFlight);
    let second = engine.draw_frame(
        &None,
        AcquireOutcome::Success { image_index: 1, suboptimal: false },
        &payload(2),
        PresentOutcome::Presented { suboptimal: false },
    );
    assert_eq!(second, FrameResult::Drawn { image_index: 1 });
    assert_eq!(engine.uniform_slots[0].contents, payload(1));
    assert_eq!(engine.uniform_slots[1].contents, payload(2));
}
