//! The computable part of pipeline construction.
//!
//! The graphics pipeline is fixed: its shader stages, rasterization and
//! blend state never change.  What does depend on runtime inputs is the
//! viewport and scissor (fixed to the swapchain extent, since the window is
//! not resizable), the vertex layout the pipeline declares, and the
//! descriptor-pool sizing that follows the swapchain image count.  Those
//! are computed here; the shell feeds them into the creation calls.

use vstd::prelude::*;

use crate::swapchain::Extent;

verus! {

/// Bytes per vertex-attribute component (a 32-bit float on the GPU).
pub const COMPONENT_BYTES: u32 = 4;
/// Components of the position attribute.
pub const POSITION_COMPONENTS: u32 = 2;
/// Components of the color attribute.
pub const COLOR_COMPONENTS: u32 = 3;

/// Fixed-function state that depends on the swapchain extent, and the
/// vertex input layout: one binding, a position attribute at the struct's
/// start and a color attribute right after it.
#[derive(Clone, Copy, PartialEq, Eq, Structural, Debug)]
pub struct PipelinePlan {
    pub viewport_width: u32,
    pub viewport_height: u32,
    pub scissor_x: u32,
    pub scissor_y: u32,
    pub scissor_width: u32,
    pub scissor_height: u32,
    pub vertex_stride: u32,
    pub position_offset: u32,
    pub color_offset: u32,
}

/// Descriptor-pool sizing for the two uniform-buffer bindings: one plain
/// and one dynamic uniform descriptor per swapchain image, and as many
/// sets as there are images.
#[derive(Clone, Copy, PartialEq, Eq, Structural, Debug)]
pub struct DescriptorPoolPlan {
    pub uniform_descriptors: u32,
    pub dynamic_uniform_descriptors: u32,
    pub max_sets: u32,
}

/// The pipeline state a given swapchain extent calls for: viewport and
/// scissor covering the whole extent from the origin, and the vertex
/// layout of an interleaved position-then-color vertex.
pub fn plan_pipeline(extent: &Extent) -> (p: PipelinePlan)
    ensures
        p.viewport_width == extent.width,
        p.viewport_height == extent.height,
        p.scissor_x == 0 && p.scissor_y == 0,
        p.scissor_width == extent.width,
        p.scissor_height == extent.height,
        p.vertex_stride == (POSITION_COMPONENTS + COLOR_COMPONENTS) * COMPONENT_BYTES,
        p.position_offset == 0,
        p.color_offset == POSITION_COMPONENTS * COMPONENT_BYTES,
{
    PipelinePlan {
        viewport_width: extent.width,
        viewport_height: extent.height,
        scissor_x: 0,
        scissor_y: 0,
        scissor_width: extent.width,
        scissor_height: extent.height,
        vertex_stride: (POSITION_COMPONENTS + COLOR_COMPONENTS) * COMPONENT_BYTES,
        position_offset: 0,
        color_offset: POSITION_COMPONENTS * COMPONENT_BYTES,
    }
}

/// The descriptor pool a given swapchain needs: each image gets one view
/// descriptor and one dynamic object-transform descriptor, and one set may
/// be allocated per image.
pub fn plan_descriptor_pool(image_count: u32) -> (p: DescriptorPoolPlan)
    ensures
        p.uniform_descriptors == image_count,
        p.dynamic_uniform_descriptors == image_count,
        p.max_sets == image_count,
{
    DescriptorPoolPlan {
        uniform_descriptors: image_count,
        dynamic_uniform_descriptors: image_count,
        max_sets: image_count,
    }
}

} // verus!
