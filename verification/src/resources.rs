//! The surface-dependent resource set.
//!
//! Everything whose size depends on the current window surface lives here:
//! the swapchain plan, the realized count of presentable images (and so of
//! the per-image views, uniform buffers and descriptor sets indexed by the
//! acquired image), the depth buffer's extent, and the viewport and scissor
//! handed to every draw as dynamic state. On resize the whole set is
//! superseded at once — the shell waits the device idle, destroys the old
//! generation and builds a new one from the current window size; no two
//! generations coexist and no intermediate state is observable.

use vstd::prelude::*;

use crate::swapchain::{
    Extent2D, PresentMode, SurfaceCapabilities, SurfaceFormat, SwapchainPlan, plan_swapchain,
    spec_plan_swapchain,
};

verus! {

/// The viewport of a draw: origin at the top-left corner, sized to the
/// current resolution. Its depth range is the fixed zero-to-one interval
/// and is applied verbatim by the shell.
#[derive(Clone, Copy, PartialEq, Eq, Structural, Debug)]
pub struct Viewport {
    pub x: u32,
    pub y: u32,
    pub width: u32,
    pub height: u32,
}

/// The scissor rectangle of a draw: the whole current resolution.
#[derive(Clone, Copy, PartialEq, Eq, Structural, Debug)]
pub struct Rect2D {
    pub offset_x: i32,
    pub offset_y: i32,
    pub width: u32,
    pub height: u32,
}

/// The viewport derived from a resolution.
pub open spec fn spec_viewport(extent: Extent2D) -> Viewport {
    Viewport { x: 0, y: 0, width: extent.width, height: extent.height }
}

/// The scissor derived from a resolution.
pub open spec fn spec_scissor(extent: Extent2D) -> Rect2D {
    Rect2D { offset_x: 0, offset_y: 0, width: extent.width, height: extent.height }
}

/// The resource set a given plan and realized image count determine.
pub open spec fn spec_resource_set(plan: SwapchainPlan, realized_image_count: usize) -> ResourceSet {
    ResourceSet {
        plan,
        image_count: realized_image_count,
        depth_extent: plan.extent,
        viewport: spec_viewport(plan.extent),
        scissor: spec_scissor(plan.extent),
    }
}

/// One generation of the surface-dependent resources.
pub struct ResourceSet {
    /// The plan the swapchain was created from.
    pub plan: SwapchainPlan,
    /// How many presentable images the driver realized; at least the
    /// desired count, and the length of every per-image array.
    pub image_count: usize,
    /// The depth buffer's size: always the current resolution.
    pub depth_extent: Extent2D,
    pub viewport: Viewport,
    pub scissor: Rect2D,
}

impl ResourceSet {
    /// Viewport, scissor and depth buffer all agree with the resolution the
    /// swapchain was created at, and at least one presentable image exists.
    pub open spec fn wf(self) -> bool {
        &&& self.viewport == spec_viewport(self.plan.extent)
        &&& self.scissor == spec_scissor(self.plan.extent)
        &&& self.depth_extent == self.plan.extent
        &&& self.image_count >= 1
    }

    /// Assembles the generation for a created swapchain:
    /// `realized_image_count` is how many presentable images the driver
    /// handed back, never fewer than one.
    pub fn new(plan: SwapchainPlan, realized_image_count: usize) -> (r: ResourceSet)
        requires
            realized_image_count >= 1,
        ensures
            r.wf(),
            r == spec_resource_set(plan, realized_image_count),
            r.plan == plan,
            r.image_count == realized_image_count,
            r.depth_extent == plan.extent,
            r.viewport == spec_viewport(plan.extent),
            r.scissor == spec_scissor(plan.extent),
    {
        ResourceSet {
            plan,
            image_count: realized_image_count,
            depth_extent: plan.extent,
            viewport: Viewport { x: 0, y: 0, width: plan.extent.width, height: plan.extent.height },
            scissor: Rect2D {
                offset_x: 0,
                offset_y: 0,
                width: plan.extent.width,
                height: plan.extent.height,
            },
        }
    }

    /// Plans the swapchain from what the surface and window report and
    /// assembles the generation in one step.
    pub fn build(
        caps: &SurfaceCapabilities,
        window_extent: Extent2D,
        formats: &Vec<SurfaceFormat>,
        modes: &Vec<PresentMode>,
        realized_image_count: usize,
    ) -> (r: ResourceSet)
        requires
            caps.min_image_count < u32::MAX,
            formats@.len() > 0,
            realized_image_count >= 1,
        ensures
            r.wf(),
            r == spec_resource_set(
                spec_plan_swapchain(*caps, window_extent, formats@, modes@),
                realized_image_count,
            ),
            r.plan == spec_plan_swapchain(*caps, window_extent, formats@, modes@),
            r.image_count == realized_image_count,
    {
        let plan = plan_swapchain(caps, window_extent, formats, modes);
        ResourceSet::new(plan, realized_image_count)
    }
}

/// Rebuilding is idempotent in its functional output: two builds from equal
/// surface answers and equal window sizes yield the same plan — and with it
/// the same resolution, viewport and scissor.
pub proof fn lemma_rebuild_idempotent(
    caps1: SurfaceCapabilities,
    caps2: SurfaceCapabilities,
    window1: Extent2D,
    window2: Extent2D,
    formats1: Seq<SurfaceFormat>,
    formats2: Seq<SurfaceFormat>,
    modes1: Seq<PresentMode>,
    modes2: Seq<PresentMode>,
)
    requires
        caps1 == caps2,
        window1 == window2,
        formats1 == formats2,
        modes1 == modes2,
    ensures
        spec_plan_swapchain(caps1, window1, formats1, modes1)
            == spec_plan_swapchain(caps2, window2, formats2, modes2),
        spec_viewport(spec_plan_swapchain(caps1, window1, formats1, modes1).extent)
            == spec_viewport(spec_plan_swapchain(caps2, window2, formats2, modes2).extent),
        spec_scissor(spec_plan_swapchain(caps1, window1, formats1, modes1).extent)
            == spec_scissor(spec_plan_swapchain(caps2, window2, formats2, modes2).extent),
{
}

} // verus!
