//! Planning the swapchain for the current presentation surface.
//!
//! A swapchain is a queue of presentable images cycled between the engine
//! and the display compositor. Its configuration is a pure function of what
//! the surface reports (capabilities, supported formats and present modes)
//! and of the window's current pixel size: the desired image count, the
//! resolved extent, the present mode and the pre-transform. The shell
//! queries the driver, hands the answers over as plain values, and creates
//! the swapchain exactly as the returned plan says.

use vstd::prelude::*;

verus! {

/// A two-dimensional pixel size.
#[derive(Clone, Copy, PartialEq, Eq, Structural, Debug)]
pub struct Extent2D {
    pub width: u32,
    pub height: u32,
}

/// The sentinel width by which a surface reports that its extent is
/// undefined and the window's size decides.
pub const UNDEFINED_EXTENT_WIDTH: u32 = 0xffff_ffff;

/// The identity bit of the surface-transform flag set.
pub const TRANSFORM_IDENTITY: u32 = 0x1;

/// What the surface reports about itself before a swapchain is built.
#[derive(Clone, Copy, PartialEq, Eq, Structural, Debug)]
pub struct SurfaceCapabilities {
    /// The fewest presentable images a swapchain on this surface may have.
    pub min_image_count: u32,
    /// The most presentable images a swapchain on this surface may have;
    /// zero means unbounded.
    pub max_image_count: u32,
    /// The surface's current extent; a width of `UNDEFINED_EXTENT_WIDTH`
    /// means the surface lets the swapchain's extent decide.
    pub current_extent: Extent2D,
    /// Bit set of the transforms the surface supports.
    pub supported_transforms: u32,
    /// The transform the surface currently applies.
    pub current_transform: u32,
}

/// A color format / color space pair the surface can present.
#[derive(Clone, Copy, PartialEq, Eq, Structural, Debug)]
pub struct SurfaceFormat {
    pub format: u32,
    pub color_space: u32,
}

/// How presentation requests are queued against the display's refresh.
#[derive(Clone, Copy, PartialEq, Eq, Structural, Debug)]
pub enum PresentMode {
    /// Present immediately, possibly tearing.
    Immediate,
    /// Low-latency triple-buffering: newest pending image wins.
    Mailbox,
    /// Strict first-in first-out vertical sync; always supported.
    Fifo,
    /// Vertical sync that tears when a frame is late.
    FifoRelaxed,
}

/// Everything the shell needs in order to create the swapchain.
#[derive(Clone, Copy, PartialEq, Eq, Structural, Debug)]
pub struct SwapchainPlan {
    pub surface_format: SurfaceFormat,
    pub image_count: u32,
    pub extent: Extent2D,
    pub pre_transform: u32,
    pub present_mode: PresentMode,
}

/// The image count asked of the driver: one more than the surface's minimum
/// for smooth cycling, clamped to the maximum when that bound exists.
pub open spec fn spec_desired_image_count(min_image_count: u32, max_image_count: u32) -> u32 {
    if max_image_count > 0 && min_image_count + 1 > max_image_count {
        max_image_count
    } else {
        (min_image_count + 1) as u32
    }
}

/// The extent the swapchain is created with: the surface's reported extent
/// when it is defined, else the window's size floored at one pixel in each
/// dimension so that no zero-sized swapchain is ever requested.
pub open spec fn spec_resolve_extent(current_extent: Extent2D, window_extent: Extent2D) -> Extent2D {
    if current_extent.width == UNDEFINED_EXTENT_WIDTH {
        Extent2D {
            width: if window_extent.width >= 1 { window_extent.width } else { 1 },
            height: if window_extent.height >= 1 { window_extent.height } else { 1 },
        }
    } else {
        current_extent
    }
}

/// The present mode used: low-latency mailbox when the surface offers it,
/// else the universally supported FIFO vertical sync.
pub open spec fn spec_select_present_mode(modes: Seq<PresentMode>) -> PresentMode {
    if modes.contains(PresentMode::Mailbox) {
        PresentMode::Mailbox
    } else {
        PresentMode::Fifo
    }
}

/// The pre-transform used: identity when supported, else whatever the
/// surface currently applies.
pub open spec fn spec_select_pre_transform(supported_transforms: u32, current_transform: u32) -> u32 {
    if supported_transforms & TRANSFORM_IDENTITY != 0 {
        TRANSFORM_IDENTITY
    } else {
        current_transform
    }
}

/// The whole plan, as a function of what the surface and the window report.
/// The surface format is the first supported one; no ranking is applied.
pub open spec fn spec_plan_swapchain(
    caps: SurfaceCapabilities,
    window_extent: Extent2D,
    formats: Seq<SurfaceFormat>,
    modes: Seq<PresentMode>,
) -> SwapchainPlan {
    SwapchainPlan {
        surface_format: formats[0],
        image_count: spec_desired_image_count(caps.min_image_count, caps.max_image_count),
        extent: spec_resolve_extent(caps.current_extent, window_extent),
        pre_transform: spec_select_pre_transform(caps.supported_transforms, caps.current_transform),
        present_mode: spec_select_present_mode(modes),
    }
}

/// Computes the image count asked of the driver.
///
/// Whenever the surface's bounds are coherent (no maximum, or a maximum at
/// or above the minimum), the result stays within them.
pub fn desired_image_count(min_image_count: u32, max_image_count: u32) -> (r: u32)
    requires
        min_image_count < u32::MAX,
    ensures
        r == spec_desired_image_count(min_image_count, max_image_count),
        max_image_count == 0 || min_image_count <= max_image_count ==> min_image_count <= r,
        max_image_count > 0 ==> r <= max_image_count,
{
    let mut desired = min_image_count + 1;
    if max_image_count > 0 && desired > max_image_count {
        desired = max_image_count;
    }
    desired
}

/// Resolves the extent the swapchain is created with.
///
/// For every surface whose defined extent is nondegenerate — and for every
/// window size at all, the zero-sized one included — the resolved extent is
/// at least one pixel in each dimension.
pub fn resolve_extent(current_extent: Extent2D, window_extent: Extent2D) -> (r: Extent2D)
    ensures
        r == spec_resolve_extent(current_extent, window_extent),
        current_extent.width == UNDEFINED_EXTENT_WIDTH
            || (current_extent.width >= 1 && current_extent.height >= 1)
            ==> r.width >= 1 && r.height >= 1,
{
    if current_extent.width == UNDEFINED_EXTENT_WIDTH {
        Extent2D {
            width: if window_extent.width >= 1 { window_extent.width } else { 1 },
            height: if window_extent.height >= 1 { window_extent.height } else { 1 },
        }
    } else {
        current_extent
    }
}

/// Picks the present mode: mailbox exactly when the surface offers it, FIFO
/// otherwise.
pub fn select_present_mode(modes: &Vec<PresentMode>) -> (r: PresentMode)
    ensures
        r == spec_select_present_mode(modes@),
{
    let n = modes.len();
    let mut i: usize = 0;
    while i < n
        invariant
            n == modes@.len(),
            i <= n,
            forall|j: int| 0 <= j < i ==> modes@[j] != PresentMode::Mailbox,
        decreases n - i,
    {
        if modes[i] == PresentMode::Mailbox {
            assert(modes@.contains(PresentMode::Mailbox));
            return PresentMode::Mailbox;
        }
        i = i + 1;
    }
    assert(!modes@.contains(PresentMode::Mailbox));
    PresentMode::Fifo
}

/// Picks the first format the surface supports; the surface reporting no
/// format at all is a driver fault the shell treats as fatal.
pub fn select_surface_format(formats: &Vec<SurfaceFormat>) -> (r: SurfaceFormat)
    requires
        formats@.len() > 0,
    ensures
        r == formats@[0],
{
    formats[0]
}

/// Picks the pre-transform: identity when supported, else the current one.
pub fn select_pre_transform(supported_transforms: u32, current_transform: u32) -> (r: u32)
    ensures
        r == spec_select_pre_transform(supported_transforms, current_transform),
{
    if supported_transforms & TRANSFORM_IDENTITY != 0 {
        TRANSFORM_IDENTITY
    } else {
        current_transform
    }
}

/// Builds the whole plan from what the surface and the window report.
pub fn plan_swapchain(
    caps: &SurfaceCapabilities,
    window_extent: Extent2D,
    formats: &Vec<SurfaceFormat>,
    modes: &Vec<PresentMode>,
) -> (r: SwapchainPlan)
    requires
        caps.min_image_count < u32::MAX,
        formats@.len() > 0,
    ensures
        r == spec_plan_swapchain(*caps, window_extent, formats@, modes@),
{
    SwapchainPlan {
        surface_format: select_surface_format(formats),
        image_count: desired_image_count(caps.min_image_count, caps.max_image_count),
        extent: resolve_extent(caps.current_extent, window_extent),
        pre_transform: select_pre_transform(caps.supported_transforms, caps.current_transform),
        present_mode: select_present_mode(modes),
    }
}

/// The desired image count stays within the surface's bounds: at least the
/// minimum, and at most the maximum whenever that bound exists. An absent
/// maximum is reported as zero, and then only the lower bound applies.
pub proof fn lemma_image_count_within_bounds(min_image_count: u32, max_image_count: u32)
    requires
        min_image_count < u32::MAX,
        max_image_count == 0 || min_image_count <= max_image_count,
    ensures
        min_image_count <= spec_desired_image_count(min_image_count, max_image_count),
        max_image_count > 0 ==> spec_desired_image_count(min_image_count, max_image_count)
            <= max_image_count,
{
}

/// For every window size — the degenerate zero-sized one included — and for
/// every surface whose defined extent is nondegenerate, the resolved
/// swapchain extent is at least one pixel in each dimension.
pub proof fn lemma_resolved_extent_nondegenerate(current_extent: Extent2D, window_extent: Extent2D)
    requires
        current_extent.width == UNDEFINED_EXTENT_WIDTH
            || (current_extent.width >= 1 && current_extent.height >= 1),
    ensures
        spec_resolve_extent(current_extent, window_extent).width >= 1,
        spec_resolve_extent(current_extent, window_extent).height >= 1,
{
}

} // verus!
