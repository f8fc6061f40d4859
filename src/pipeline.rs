use vstd::prelude::*;
use crate::surface::Extent;

verus! {

/// What a render pass does with an attachment when the pass begins.
#[derive(Clone, Copy, Debug, PartialEq, Eq, Structural)]
pub enum LoadOp {
    Clear,
    Load,
    DontCare,
}

/// What a render pass does with an attachment when the pass ends.
#[derive(Clone, Copy, Debug, PartialEq, Eq, Structural)]
pub enum StoreOp {
    Store,
    DontCare,
}

/// A single-subpass render pass.
#[derive(Clone, Copy, Debug, PartialEq, Eq, Structural)]
pub struct RenderPassConfig {
    /// Format of the one color attachment: the swapchain's image format.
    pub color_format: u32,
    pub samples: u32,
    pub load_op: LoadOp,
    pub store_op: StoreOp,
    pub color_attachments: u32,
    pub has_depth_stencil: bool,
}

pub open spec fn render_pass_for(format: u32) -> RenderPassConfig {
    RenderPassConfig {
        color_format: format,
        samples: 1,
        load_op: LoadOp::Clear,
        store_op: StoreOp::Store,
        color_attachments: 1,
        has_depth_stencil: false,
    }
}

/// The render pass drawn in: one color attachment in the swapchain's format,
/// one sample, cleared on load and stored at the end, no depth or stencil.
pub fn render_pass_config(format: u32) -> (r: RenderPassConfig)
    ensures
        r == render_pass_for(format),
{
    RenderPassConfig {
        color_format: format,
        samples: 1,
        load_op: LoadOp::Clear,
        store_op: StoreOp::Store,
        color_attachments: 1,
        has_depth_stencil: false,
    }
}

#[derive(Clone, Copy, Debug, PartialEq, Eq, Structural)]
pub enum Topology {
    TriangleList,
}

#[derive(Clone, Copy, Debug, PartialEq, Eq, Structural)]
pub enum PolygonMode {
    Fill,
}

#[derive(Clone, Copy, Debug, PartialEq, Eq, Structural)]
pub enum CullMode {
    NoCulling,
}

/// The fixed-function state of the graphics pipeline, and its viewport.
#[derive(Clone, Copy, Debug, PartialEq, Eq, Structural)]
pub struct PipelineConfig {
    /// The viewport and scissor cover the whole surface, from the origin.
    pub viewport: Extent,
    pub viewport_count: u32,
    pub topology: Topology,
    pub polygon_mode: PolygonMode,
    pub cull_mode: CullMode,
    pub samples: u32,
    /// One default blend state per color attachment of the subpass.
    pub blend_attachments: u32,
    pub subpass: u32,
}

pub open spec fn pipeline_for(render_pass: RenderPassConfig, viewport: Extent) -> PipelineConfig {
    PipelineConfig {
        viewport,
        viewport_count: 1,
        topology: Topology::TriangleList,
        polygon_mode: PolygonMode::Fill,
        cull_mode: CullMode::NoCulling,
        samples: 1,
        blend_attachments: render_pass.color_attachments,
        subpass: 0,
    }
}

/// The pipeline for subpass 0 of `render_pass`, drawing into a viewport of
/// size `viewport`.
pub fn pipeline_config(render_pass: &RenderPassConfig, viewport: Extent) -> (r: PipelineConfig)
    ensures
        r == pipeline_for(*render_pass, viewport),
{
    PipelineConfig {
        viewport,
        viewport_count: 1,
        topology: Topology::TriangleList,
        polygon_mode: PolygonMode::Fill,
        cull_mode: CullMode::NoCulling,
        samples: 1,
        blend_attachments: render_pass.color_attachments,
        subpass: 0,
    }
}

/// The pipeline's fixed-function state does not depend on the viewport: two
/// builds for one render pass agree on everything but the viewport, and with
/// the same viewport they are the same pipeline.
pub proof fn lemma_pipeline_fixed_function(render_pass: RenderPassConfig, a: Extent, b: Extent)
    ensures
        pipeline_for(render_pass, a) == (PipelineConfig {
            viewport: a,
            ..pipeline_for(render_pass, b)
        }),
        pipeline_for(render_pass, a).viewport_count == 1,
        a == b ==> pipeline_for(render_pass, a) == pipeline_for(render_pass, b),
{
}

} // verus!
