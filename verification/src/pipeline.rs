//! The graphics-pipeline configuration: two shader stages over a fixed
//! function setup targeting the render pass.

use vstd::prelude::*;

use crate::swapchain::Extent;

verus! {

/// A programmable stage of the pipeline.
#[derive(Debug, Clone, Copy, PartialEq, Eq, Structural)]
pub enum ShaderStage {
    Vertex,
    Fragment,
}

/// One shader stage binding: which stage, and the entry point to invoke in
/// its precompiled module.
#[derive(Debug, Clone)]
pub struct ShaderStageConfig {
    pub stage: ShaderStage,
    pub entry_point: String,
}

/// The vertex-input declaration, reduced to how many bindings and
/// attributes it wires.  No mesh data is wired yet, so the pipeline is
/// built with both counts zero.
#[derive(Debug, Clone, Copy, PartialEq, Eq, Structural)]
pub struct VertexInputConfig {
    pub binding_count: u32,
    pub attribute_count: u32,
}

/// How the input assembler groups vertices into primitives.
#[derive(Debug, Clone, Copy, PartialEq, Eq, Structural)]
pub enum PrimitiveTopology {
    PointList,
    LineList,
    TriangleList,
}

/// Which side of a primitive the rasterizer discards.
#[derive(Debug, Clone, Copy, PartialEq, Eq, Structural)]
pub enum CullMode {
    Disabled,
    Front,
    Back,
}

/// The winding order that marks a primitive's front face.
#[derive(Debug, Clone, Copy, PartialEq, Eq, Structural)]
pub enum FrontFace {
    Clockwise,
    CounterClockwise,
}

/// The rasterizer's fixed-function settings read by this pipeline.
#[derive(Debug, Clone, Copy, PartialEq, Eq, Structural)]
pub struct RasterizationConfig {
    pub cull_mode: CullMode,
    pub front_face: FrontFace,
}

/// One color-blend attachment slot; blending is disabled for a straight
/// overwrite.
#[derive(Debug, Clone, Copy, PartialEq, Eq, Structural)]
pub struct ColorBlendAttachment {
    pub blend_enabled: bool,
}

/// The full fixed-function configuration the pipeline is built with.
#[derive(Debug, Clone)]
pub struct GraphicsPipelineConfig {
    /// The shader stages, in pipeline order.
    pub stages: Vec<ShaderStageConfig>,
    pub vertex_input: VertexInputConfig,
    pub input_assembly: PrimitiveTopology,
    /// The initial viewport size; the actual rectangle is dynamic state.
    pub viewport_extent: Extent,
    /// The initial scissor size; the actual rectangle is dynamic state.
    pub scissor_extent: Extent,
    /// The viewport rectangle is supplied at draw time.
    pub dynamic_viewport: bool,
    /// The scissor rectangle is supplied at draw time.
    pub dynamic_scissor: bool,
    pub rasterization: RasterizationConfig,
    /// Samples per pixel; one sample disables multisampling.
    pub sample_count: u32,
    pub color_blend_attachments: Vec<ColorBlendAttachment>,
}

/// The shape of the pipeline built for a given swapchain extent: a vertex
/// and a fragment stage each entered at "main", an empty vertex input,
/// triangle-list assembly, dynamic viewport and scissor sized initially to
/// the extent, back-face culling with clockwise front faces, a single
/// sample, and one blend-disabled color attachment.
pub open spec fn pipeline_config_matches(config: GraphicsPipelineConfig, extent: Extent) -> bool {
    &&& config.stages@.len() == 2
    &&& config.stages@[0].stage == ShaderStage::Vertex
    &&& config.stages@[0].entry_point@ == "main"@
    &&& config.stages@[1].stage == ShaderStage::Fragment
    &&& config.stages@[1].entry_point@ == "main"@
    &&& config.vertex_input == (VertexInputConfig { binding_count: 0, attribute_count: 0 })
    &&& config.input_assembly == PrimitiveTopology::TriangleList
    &&& config.viewport_extent == extent
    &&& config.scissor_extent == extent
    &&& config.dynamic_viewport
    &&& config.dynamic_scissor
    &&& config.rasterization == (RasterizationConfig {
        cull_mode: CullMode::Back,
        front_face: FrontFace::Clockwise,
    })
    &&& config.sample_count == 1
    &&& config.color_blend_attachments@ =~= seq![ColorBlendAttachment { blend_enabled: false }]
}

/// Build the fixed-function pipeline configuration for the negotiated
/// swapchain extent.
pub fn create_graphics_pipeline(extent: Extent) -> (r: GraphicsPipelineConfig)
    ensures
        pipeline_config_matches(r, extent),
{
    let vertex_stage = ShaderStageConfig {
        stage: ShaderStage::Vertex,
        entry_point: String::from_str("main"),
    };
    let fragment_stage = ShaderStageConfig {
        stage: ShaderStage::Fragment,
        entry_point: String::from_str("main"),
    };
    GraphicsPipelineConfig {
        stages: vec![vertex_stage, fragment_stage],
        vertex_input: VertexInputConfig { binding_count: 0, attribute_count: 0 },
        input_assembly: PrimitiveTopology::TriangleList,
        viewport_extent: extent,
        scissor_extent: extent,
        dynamic_viewport: true,
        dynamic_scissor: true,
        rasterization: RasterizationConfig {
            cull_mode: CullMode::Back,
            front_face: FrontFace::Clockwise,
        },
        sample_count: 1,
        color_blend_attachments: vec![ColorBlendAttachment { blend_enabled: false }],
    }
}

} // verus!
