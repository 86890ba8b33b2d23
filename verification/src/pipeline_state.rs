//! The pipeline's fixed-function state and resource descriptions, as plain
//! data.
//!
//! The renderer's configuration decisions live here as total functions with
//! exact contracts, so that the description handed to the graphics device is
//! pinned down field by field: triangle-list topology, dynamic viewport and
//! scissor, no culling, fill mode, single-sample rasterization, reversed
//! depth (greater-or-equal compare), additive colour blending on the colour
//! channels only, and one storage-buffer binding visible to the vertex
//! stage.  An unverified interpreter translates these records into the real
//! API's structures.

use vstd::prelude::*;

verus! {

#[derive(Clone, Copy, PartialEq, Eq, Structural, Debug)]
pub enum PrimitiveTopology {
    PointList,
    LineList,
    TriangleList,
    TriangleStrip,
}

#[derive(Clone, Copy, PartialEq, Eq, Structural, Debug)]
pub enum CullMode {
    NoCulling,
    Front,
    Back,
    FrontAndBack,
}

#[derive(Clone, Copy, PartialEq, Eq, Structural, Debug)]
pub enum PolygonMode {
    Fill,
    Line,
    Point,
}

#[derive(Clone, Copy, PartialEq, Eq, Structural, Debug)]
pub enum CompareOp {
    Never,
    Less,
    Equal,
    LessOrEqual,
    Greater,
    NotEqual,
    GreaterOrEqual,
    Always,
}

#[derive(Clone, Copy, PartialEq, Eq, Structural, Debug)]
pub enum BlendFactor {
    Zero,
    One,
    SrcAlpha,
    OneMinusSrcAlpha,
}

#[derive(Clone, Copy, PartialEq, Eq, Structural, Debug)]
pub enum BlendOp {
    Add,
    Subtract,
    ReverseSubtract,
    Min,
    Max,
}

#[derive(Clone, Copy, PartialEq, Eq, Structural, Debug)]
pub enum DescriptorType {
    StorageBuffer,
    UniformBuffer,
}

/// Which colour channels a blend attachment writes.
#[derive(Clone, Copy, PartialEq, Eq, Structural, Debug)]
pub struct ColorWriteMask {
    pub red: bool,
    pub green: bool,
    pub blue: bool,
    pub alpha: bool,
}

/// Which shader stages can see a descriptor binding.
#[derive(Clone, Copy, PartialEq, Eq, Structural, Debug)]
pub struct ShaderStageSet {
    pub vertex: bool,
    pub fragment: bool,
}

#[derive(Clone, Copy, PartialEq, Eq, Structural, Debug)]
pub struct RasterizationState {
    pub cull_mode: CullMode,
    pub polygon_mode: PolygonMode,
    /// Line width in thousandths of a pixel; 1000 is one pixel.
    pub line_width_milli: u32,
}

#[derive(Clone, Copy, PartialEq, Eq, Structural, Debug)]
pub struct DepthStencilState {
    pub depth_test_enable: bool,
    pub depth_write_enable: bool,
    pub depth_compare_op: CompareOp,
    /// Both stencil faces carry a no-op state; the test itself stays off.
    pub stencil_test_enable: bool,
}

#[derive(Clone, Copy, PartialEq, Eq, Structural, Debug)]
pub struct ColorBlendAttachment {
    pub blend_enable: bool,
    pub src_color_blend_factor: BlendFactor,
    pub dst_color_blend_factor: BlendFactor,
    pub color_blend_op: BlendOp,
    pub src_alpha_blend_factor: BlendFactor,
    pub dst_alpha_blend_factor: BlendFactor,
    pub alpha_blend_op: BlendOp,
    pub color_write_mask: ColorWriteMask,
}

/// Every fixed-function choice the pipeline is created with.
#[derive(Clone, Copy, PartialEq, Eq, Structural, Debug)]
pub struct FixedFunctionState {
    pub topology: PrimitiveTopology,
    pub viewport_count: u32,
    pub scissor_count: u32,
    /// Viewport and scissor are dynamic state, set per frame by the caller.
    pub dynamic_viewport: bool,
    pub dynamic_scissor: bool,
    pub rasterization: RasterizationState,
    /// Samples per pixel; 1 disables multisampling.
    pub rasterization_samples: u32,
    pub depth_stencil: DepthStencilState,
    pub color_blend: ColorBlendAttachment,
}

/// The single descriptor binding of the renderer's own set: vertex data
/// reaches the shader through this buffer, not through vertex attributes.
#[derive(Clone, Copy, PartialEq, Eq, Structural, Debug)]
pub struct DescriptorSetLayoutBinding {
    pub binding: u32,
    pub descriptor_type: DescriptorType,
    pub descriptor_count: u32,
    pub stages: ShaderStageSet,
}

/// Size of the descriptor pool the renderer allocates from.
#[derive(Clone, Copy, PartialEq, Eq, Structural, Debug)]
pub struct DescriptorPoolDesc {
    pub max_sets: u32,
    pub storage_buffer_descriptors: u32,
}

/// The pipeline layout: the context's shared layout at set 0, the
/// renderer's own layout at set 1.
#[derive(Clone, Copy, PartialEq, Eq, Structural, Debug)]
pub struct PipelineLayoutDesc {
    pub set0_layout: u64,
    pub set1_layout: u64,
}

/// Everything the graphics pipeline is created from.
#[derive(Clone, Copy, PartialEq, Eq, Structural, Debug)]
pub struct GraphicsPipelineDesc {
    pub vertex_module: u64,
    pub fragment_module: u64,
    pub layout: u64,
    pub render_pass: u64,
    pub subpass: u32,
    pub fixed: FixedFunctionState,
}

/// The voxel renderer's fixed-function state.
pub open spec fn voxel_fixed_function_spec() -> FixedFunctionState {
    FixedFunctionState {
        topology: PrimitiveTopology::TriangleList,
        viewport_count: 1,
        scissor_count: 1,
        dynamic_viewport: true,
        dynamic_scissor: true,
        rasterization: RasterizationState {
            cull_mode: CullMode::NoCulling,
            polygon_mode: PolygonMode::Fill,
            line_width_milli: 1000,
        },
        rasterization_samples: 1,
        depth_stencil: DepthStencilState {
            depth_test_enable: true,
            depth_write_enable: true,
            depth_compare_op: CompareOp::GreaterOrEqual,
            stencil_test_enable: false,
        },
        color_blend: ColorBlendAttachment {
            blend_enable: true,
            src_color_blend_factor: BlendFactor::One,
            dst_color_blend_factor: BlendFactor::One,
            color_blend_op: BlendOp::Add,
            src_alpha_blend_factor: BlendFactor::Zero,
            dst_alpha_blend_factor: BlendFactor::Zero,
            alpha_blend_op: BlendOp::Add,
            color_write_mask: ColorWriteMask {
                red: true,
                green: true,
                blue: true,
                alpha: false,
            },
        },
    }
}

/// Build the fixed-function state the voxel pipeline is always created
/// with.
pub fn fixed_function_state() -> (r: FixedFunctionState)
    ensures
        r == voxel_fixed_function_spec(),
{
    FixedFunctionState {
        topology: PrimitiveTopology::TriangleList,
        viewport_count: 1,
        scissor_count: 1,
        dynamic_viewport: true,
        dynamic_scissor: true,
        rasterization: RasterizationState {
            cull_mode: CullMode::NoCulling,
            polygon_mode: PolygonMode::Fill,
            line_width_milli: 1000,
        },
        rasterization_samples: 1,
        depth_stencil: DepthStencilState {
            depth_test_enable: true,
            depth_write_enable: true,
            depth_compare_op: CompareOp::GreaterOrEqual,
            stencil_test_enable: false,
        },
        color_blend: ColorBlendAttachment {
            blend_enable: true,
            src_color_blend_factor: BlendFactor::One,
            dst_color_blend_factor: BlendFactor::One,
            color_blend_op: BlendOp::Add,
            src_alpha_blend_factor: BlendFactor::Zero,
            dst_alpha_blend_factor: BlendFactor::Zero,
            alpha_blend_op: BlendOp::Add,
            color_write_mask: ColorWriteMask {
                red: true,
                green: true,
                blue: true,
                alpha: false,
            },
        },
    }
}

/// The one binding of the renderer's descriptor-set layout: a single
/// storage buffer visible to the vertex stage only.
pub open spec fn vertex_data_binding_spec() -> DescriptorSetLayoutBinding {
    DescriptorSetLayoutBinding {
        binding: 0,
        descriptor_type: DescriptorType::StorageBuffer,
        descriptor_count: 1,
        stages: ShaderStageSet { vertex: true, fragment: false },
    }
}

/// Build the renderer's single descriptor-set layout binding.
pub fn vertex_data_binding() -> (r: DescriptorSetLayoutBinding)
    ensures
        r == vertex_data_binding_spec(),
{
    DescriptorSetLayoutBinding {
        binding: 0,
        descriptor_type: DescriptorType::StorageBuffer,
        descriptor_count: 1,
        stages: ShaderStageSet { vertex: true, fragment: false },
    }
}

/// Build the pool description: room for exactly one set holding one
/// storage-buffer descriptor.
pub fn descriptor_pool_desc() -> (r: DescriptorPoolDesc)
    ensures
        r.max_sets == 1,
        r.storage_buffer_descriptors == 1,
{
    DescriptorPoolDesc { max_sets: 1, storage_buffer_descriptors: 1 }
}

/// Combine the context's shared set-0 layout with the renderer's local
/// set-1 layout.
pub fn pipeline_layout_desc(common_layout: u64, local_layout: u64) -> (r: PipelineLayoutDesc)
    ensures
        r.set0_layout == common_layout,
        r.set1_layout == local_layout,
{
    PipelineLayoutDesc { set0_layout: common_layout, set1_layout: local_layout }
}

/// Build the full pipeline description: the two shader stages, the combined
/// layout, the target render pass at subpass 0, and the fixed-function
/// state above.
pub fn graphics_pipeline_desc(
    vertex_module: u64,
    fragment_module: u64,
    layout: u64,
    render_pass: u64,
) -> (r: GraphicsPipelineDesc)
    ensures
        r.vertex_module == vertex_module,
        r.fragment_module == fragment_module,
        r.layout == layout,
        r.render_pass == render_pass,
        r.subpass == 0,
        r.fixed == voxel_fixed_function_spec(),
{
    GraphicsPipelineDesc {
        vertex_module,
        fragment_module,
        layout,
        render_pass,
        subpass: 0,
        fixed: fixed_function_state(),
    }
}

/// Pipeline fixed-function state is deterministic: any two states built
/// from the construction rules are the same configuration, field for field.
pub proof fn lemma_fixed_function_deterministic(a: FixedFunctionState, b: FixedFunctionState)
    requires
        a == voxel_fixed_function_spec(),
        b == voxel_fixed_function_spec(),
    ensures
        a == b,
{
}

} // verus!
