//! The render pipeline: shader stages, vertex input layout, bind groups and
//! the fixed-function states.
use vstd::prelude::*;
use crate::formats::{
    BindingType, BlendFactor, BlendOperation, ColorWrites, CompareFunction, CullMode, FrontFace,
    IndexFormat, InputStepMode, PrimitiveTopology, ShaderStages, TextureFormat, VertexFormat,
    vertex_format_size,
};
use crate::mesh::BufferId;

verus! {

/// The renderer's two shader modules.
#[derive(Clone, Copy, PartialEq, Eq, Debug)]
pub enum ShaderId {
    Vertex,
    Fragment,
}

/// A shader stage: the module and the name of its entry point.
#[derive(Clone, Copy, PartialEq, Eq, Debug)]
pub struct ProgrammableStage {
    pub module: ShaderId,
    pub entry_point: &'static str,
}

/// One attribute read from a vertex buffer.
#[derive(Clone, Copy, PartialEq, Eq, Debug)]
pub struct VertexAttribute {
    pub format: VertexFormat,
    /// Byte offset of the attribute inside one element of the buffer.
    pub offset: u64,
    /// The shader input location the attribute feeds.
    pub shader_location: u32,
}

/// The layout of one vertex buffer.
#[derive(Clone, PartialEq, Eq, Debug)]
pub struct VertexBufferLayout {
    /// Bytes between the starts of consecutive elements.
    pub array_stride: u64,
    pub step_mode: InputStepMode,
    pub attributes: Vec<VertexAttribute>,
}

/// The vertex input of the pipeline: index format and one layout per
/// vertex buffer slot.
#[derive(Clone, PartialEq, Eq, Debug)]
pub struct VertexState {
    pub index_format: IndexFormat,
    pub vertex_buffers: Vec<VertexBufferLayout>,
}

/// One half (color or alpha) of a blend equation.
#[derive(Clone, Copy, PartialEq, Eq, Debug)]
pub struct BlendState {
    pub src_factor: BlendFactor,
    pub dst_factor: BlendFactor,
    pub operation: BlendOperation,
}

/// The state of one color target.
#[derive(Clone, Copy, PartialEq, Eq, Debug)]
pub struct ColorState {
    pub format: TextureFormat,
    pub alpha_blend: BlendState,
    pub color_blend: BlendState,
    pub write_mask: ColorWrites,
}

/// Depth testing and writing.
#[derive(Clone, Copy, PartialEq, Eq, Debug)]
pub struct DepthStencilState {
    pub format: TextureFormat,
    pub depth_write_enabled: bool,
    pub depth_compare: CompareFunction,
}

/// Rasterization of triangles.
#[derive(Clone, Copy, PartialEq, Eq, Debug)]
pub struct RasterizationState {
    pub front_face: FrontFace,
    pub cull_mode: CullMode,
}

/// One entry of a bind group layout.
#[derive(Clone, Copy, PartialEq, Eq, Debug)]
pub struct BindGroupLayoutEntry {
    pub binding: u32,
    pub ty: BindingType,
    pub visibility: ShaderStages,
}

/// One entry of a bind group: a whole buffer at a binding number.
#[derive(Clone, Copy, PartialEq, Eq, Debug)]
pub struct BindGroupEntry {
    pub binding: u32,
    pub buffer: BufferId,
}

/// The render pipeline.
#[derive(Clone, PartialEq, Eq, Debug)]
pub struct RenderPipelineDesc {
    /// The pipeline layout: one bind group layout per bind group index.
    pub bind_group_layouts: Vec<Vec<BindGroupLayoutEntry>>,
    pub vertex_stage: ProgrammableStage,
    pub fragment_stage: ProgrammableStage,
    pub primitive_topology: PrimitiveTopology,
    pub rasterization: RasterizationState,
    pub color_states: Vec<ColorState>,
    pub depth_stencil: Option<DepthStencilState>,
    pub vertex_state: VertexState,
}

/// The layout entry of the uniform block: binding 0, a uniform buffer seen by
/// the vertex stage only.
pub open spec fn uniform_layout_entry() -> BindGroupLayoutEntry {
    BindGroupLayoutEntry {
        binding: 0,
        ty: BindingType::UniformBuffer,
        visibility: ShaderStages { vertex: true, fragment: false, compute: false },
    }
}

/// The "source over" blend: `src * src_alpha + dst * (1 - src_alpha)`.
pub open spec fn source_over() -> BlendState {
    BlendState {
        src_factor: BlendFactor::SrcAlpha,
        dst_factor: BlendFactor::OneMinusSrcAlpha,
        operation: BlendOperation::Add,
    }
}

/// The single color target: the presented format, source-over blending of
/// color and alpha, every channel written.
pub open spec fn presented_color_state() -> ColorState {
    ColorState {
        format: TextureFormat::Bgra8unorm,
        alpha_blend: source_over(),
        color_blend: source_over(),
        write_mask: ColorWrites { red: true, green: true, blue: true, alpha: true },
    }
}

/// Depth testing against a depth-stencil target: nearer fragments win and
/// their depth is written.
pub open spec fn depth_test_state() -> DepthStencilState {
    DepthStencilState {
        format: TextureFormat::Depth24plusStencil8,
        depth_write_enabled: true,
        depth_compare: CompareFunction::Less,
    }
}

/// `layout` is a per-vertex buffer whose elements are a single attribute of
/// `format` at offset 0, feeding shader input `location`, packed tightly.
pub open spec fn single_attribute_layout(
    layout: VertexBufferLayout,
    format: VertexFormat,
    location: u32,
) -> bool {
    &&& layout.array_stride == vertex_format_size(format)
    &&& layout.step_mode == InputStepMode::Vertex
    &&& layout.attributes@ == seq![VertexAttribute { format, offset: 0, shader_location: location }]
}

/// The vertex input of the renderer: 16-bit indices, positions in slot 0
/// feeding location 0 and colors in slot 1 feeding location 1, each three
/// floats per vertex.
pub open spec fn is_triangle_vertex_state(state: VertexState) -> bool {
    &&& state.index_format == IndexFormat::Uint16
    &&& state.vertex_buffers@.len() == 2
    &&& single_attribute_layout(state.vertex_buffers@[0], VertexFormat::Float3, 0)
    &&& single_attribute_layout(state.vertex_buffers@[1], VertexFormat::Float3, 1)
}

/// The render pipeline of the renderer: the uniform bind group layout at
/// index 0, both shaders entered at `main`, a triangle list rasterized
/// clockwise-front with no culling, one blended color target in the presented
/// format, depth testing, and the triangle vertex input.
pub open spec fn is_triangle_pipeline(p: RenderPipelineDesc) -> bool {
    &&& p.bind_group_layouts@.len() == 1
    &&& p.bind_group_layouts@[0]@ == seq![uniform_layout_entry()]
    &&& p.vertex_stage == (ProgrammableStage { module: ShaderId::Vertex, entry_point: "main" })
    &&& p.fragment_stage == (ProgrammableStage { module: ShaderId::Fragment, entry_point: "main" })
    &&& p.primitive_topology == PrimitiveTopology::TriangleList
    &&& p.rasterization == (RasterizationState { front_face: FrontFace::Cw, cull_mode: CullMode::Disabled })
    &&& p.color_states@ == seq![presented_color_state()]
    &&& p.depth_stencil == Some(depth_test_state())
    &&& is_triangle_vertex_state(p.vertex_state)
}

/// The layout of a vertex buffer that holds one attribute of `format` per
/// vertex, feeding shader input `location`.
pub fn single_attribute_buffer(format: VertexFormat, location: u32) -> (layout: VertexBufferLayout)
    ensures
        single_attribute_layout(layout, format, location),
{
    let attribute = VertexAttribute { format, offset: 0, shader_location: location };
    let mut attributes: Vec<VertexAttribute> = Vec::new();
    attributes.push(attribute);
    VertexBufferLayout {
        array_stride: format.byte_size(),
        step_mode: InputStepMode::Vertex,
        attributes,
    }
}

/// The vertex input state of the renderer.
pub fn triangle_vertex_state() -> (state: VertexState)
    ensures
        is_triangle_vertex_state(state),
{
    let positions = single_attribute_buffer(VertexFormat::Float3, 0);
    let colors = single_attribute_buffer(VertexFormat::Float3, 1);
    let mut vertex_buffers: Vec<VertexBufferLayout> = Vec::new();
    vertex_buffers.push(positions);
    vertex_buffers.push(colors);
    VertexState { index_format: IndexFormat::Uint16, vertex_buffers }
}

/// The bind group layout of the uniform block.
pub fn uniform_bind_group_layout() -> (entries: Vec<BindGroupLayoutEntry>)
    ensures
        entries@ == seq![uniform_layout_entry()],
{
    let mut entries: Vec<BindGroupLayoutEntry> = Vec::new();
    entries.push(
        BindGroupLayoutEntry {
            binding: 0,
            ty: BindingType::UniformBuffer,
            visibility: ShaderStages { vertex: true, fragment: false, compute: false },
        },
    );
    entries
}

/// The bind group of the uniform block: the uniform buffer at binding 0.
pub fn uniform_bind_group() -> (entries: Vec<BindGroupEntry>)
    ensures
        entries@ == seq![BindGroupEntry { binding: 0, buffer: BufferId::Uniforms }],
{
    let mut entries: Vec<BindGroupEntry> = Vec::new();
    entries.push(BindGroupEntry { binding: 0, buffer: BufferId::Uniforms });
    entries
}

/// Source-over blending.
pub fn source_over_blend() -> (blend: BlendState)
    ensures
        blend == source_over(),
{
    BlendState {
        src_factor: BlendFactor::SrcAlpha,
        dst_factor: BlendFactor::OneMinusSrcAlpha,
        operation: BlendOperation::Add,
    }
}

/// The render pipeline of the renderer.
pub fn triangle_pipeline() -> (p: RenderPipelineDesc)
    ensures
        is_triangle_pipeline(p),
{
    let mut bind_group_layouts: Vec<Vec<BindGroupLayoutEntry>> = Vec::new();
    bind_group_layouts.push(uniform_bind_group_layout());

    let color_state = ColorState {
        format: TextureFormat::Bgra8unorm,
        alpha_blend: source_over_blend(),
        color_blend: source_over_blend(),
        write_mask: ColorWrites::all(),
    };
    let mut color_states: Vec<ColorState> = Vec::new();
    color_states.push(color_state);

    RenderPipelineDesc {
        bind_group_layouts,
        vertex_stage: ProgrammableStage { module: ShaderId::Vertex, entry_point: "main" },
        fragment_stage: ProgrammableStage { module: ShaderId::Fragment, entry_point: "main" },
        primitive_topology: PrimitiveTopology::TriangleList,
        rasterization: RasterizationState { front_face: FrontFace::Cw, cull_mode: CullMode::Disabled },
        color_states,
        depth_stencil: Some(
            DepthStencilState {
                format: TextureFormat::Depth24plusStencil8,
                depth_write_enabled: true,
                depth_compare: CompareFunction::Less,
            },
        ),
        vertex_state: triangle_vertex_state(),
    }
}

} // verus!
