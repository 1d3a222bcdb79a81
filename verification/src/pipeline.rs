//! The fixed graphics pipeline's configuration.
//!
//! The engine builds exactly one graphics pipeline per surface-format
//! epoch. Its fixed-function state never varies, so it is data: the vertex
//! record's layout, the rasterization and depth choices, and the dynamic
//! states. The shell translates this record into the driver's creation
//! structures verbatim; viewport and scissor are dynamic state supplied per
//! draw, which is why a resize rebuilds only the resource set and depth
//! buffer, never the pipeline.

use vstd::prelude::*;

verus! {

/// Bytes per 32-bit vertex component.
pub const COMPONENT_BYTES: u32 = 4;

/// Components in a vertex position.
pub const POSITION_COMPONENTS: u32 = 3;

/// Components in a vertex color.
pub const COLOR_COMPONENTS: u32 = 4;

/// The layout of one vertex record in the vertex buffer: a position at the
/// front and a color right after it, densely packed.
#[derive(Clone, Copy, PartialEq, Eq, Structural, Debug)]
pub struct VertexLayout {
    /// Bytes from one vertex record to the next.
    pub stride: u32,
    /// Byte offset of the position attribute.
    pub position_offset: u32,
    /// Byte offset of the color attribute.
    pub color_offset: u32,
}

/// How fragments are depth-tested.
#[derive(Clone, Copy, PartialEq, Eq, Structural, Debug)]
pub enum DepthCompare {
    LessOrEqual,
    Always,
}

/// The one pipeline's fixed-function configuration.
#[derive(Clone, Copy, PartialEq, Eq, Structural, Debug)]
pub struct PipelineConfig {
    pub vertex_layout: VertexLayout,
    /// Triangle-list topology; the one mesh is a plain triangle soup.
    pub triangle_list: bool,
    /// Counter-clockwise winding marks a front face.
    pub front_face_counter_clockwise: bool,
    /// Back faces are culled.
    pub cull_back_faces: bool,
    pub depth_test: bool,
    pub depth_write: bool,
    pub depth_compare: DepthCompare,
    /// One color attachment, not blending.
    pub color_attachment_count: u32,
    pub blend_enabled: bool,
    /// Viewport and scissor are supplied per draw as dynamic state; the
    /// counts are fixed at one each.
    pub viewport_count: u32,
    pub scissor_count: u32,
}

/// The vertex record's layout: the position's components at the front, the
/// color's right after, densely packed.
pub open spec fn spec_vertex_layout() -> VertexLayout {
    VertexLayout {
        stride: ((POSITION_COMPONENTS + COLOR_COMPONENTS) * COMPONENT_BYTES) as u32,
        position_offset: 0,
        color_offset: (POSITION_COMPONENTS * COMPONENT_BYTES) as u32,
    }
}

/// Computes the vertex record's layout: the position's components at the
/// front, the color's right after, densely packed.
pub fn vertex_layout() -> (r: VertexLayout)
    ensures
        r == spec_vertex_layout(),
        r.position_offset == 0,
        r.color_offset == POSITION_COMPONENTS * COMPONENT_BYTES,
        r.stride == (POSITION_COMPONENTS + COLOR_COMPONENTS) * COMPONENT_BYTES,
{
    VertexLayout {
        stride: (POSITION_COMPONENTS + COLOR_COMPONENTS) * COMPONENT_BYTES,
        position_offset: 0,
        color_offset: POSITION_COMPONENTS * COMPONENT_BYTES,
    }
}

/// The engine's one pipeline configuration: fill-mode rasterization with
/// back-face culling and counter-clockwise front faces, depth test and
/// write with a less-or-equal compare and no stencil, one non-blending
/// color attachment, and dynamic viewport and scissor.
pub fn pipeline_config() -> (r: PipelineConfig)
    ensures
        r.vertex_layout == spec_vertex_layout(),
        r.triangle_list,
        r.front_face_counter_clockwise,
        r.cull_back_faces,
        r.depth_test,
        r.depth_write,
        r.depth_compare == DepthCompare::LessOrEqual,
        r.color_attachment_count == 1,
        !r.blend_enabled,
        r.viewport_count == 1,
        r.scissor_count == 1,
{
    PipelineConfig {
        vertex_layout: vertex_layout(),
        triangle_list: true,
        front_face_counter_clockwise: true,
        cull_back_faces: true,
        depth_test: true,
        depth_write: true,
        depth_compare: DepthCompare::LessOrEqual,
        color_attachment_count: 1,
        blend_enabled: false,
        viewport_count: 1,
        scissor_count: 1,
    }
}

} // verus!
