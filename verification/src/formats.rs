//! The vocabulary of the renderer's GPU configuration: formats, usages,
//! fixed-function states and their byte sizes.
use vstd::prelude::*;

verus! {

/// Pixel formats of the textures the renderer creates or renders into.
#[derive(Clone, Copy, PartialEq, Eq, Debug)]
pub enum TextureFormat {
    /// 8-bit blue, green, red, alpha; the format of the presented surface.
    Bgra8unorm,
    /// 24-bit depth with an 8-bit stencil.
    Depth24plusStencil8,
}

/// Formats of a single vertex attribute.
#[derive(Clone, Copy, PartialEq, Eq, Debug)]
pub enum VertexFormat {
    /// Three 32-bit floats.
    Float3,
}

/// Formats of the entries of an index buffer.
#[derive(Clone, Copy, PartialEq, Eq, Debug)]
pub enum IndexFormat {
    /// 16-bit unsigned indices.
    Uint16,
}

/// How often a vertex buffer advances.
#[derive(Clone, Copy, PartialEq, Eq, Debug)]
pub enum InputStepMode {
    /// Once per vertex.
    Vertex,
}

/// The kind of resource a bind group entry holds.
#[derive(Clone, Copy, PartialEq, Eq, Debug)]
pub enum BindingType {
    /// A uniform buffer.
    UniformBuffer,
}

/// Factors of the blend equation.
#[derive(Clone, Copy, PartialEq, Eq, Debug)]
pub enum BlendFactor {
    /// The source alpha.
    SrcAlpha,
    /// One minus the source alpha.
    OneMinusSrcAlpha,
}

/// Operations of the blend equation.
#[derive(Clone, Copy, PartialEq, Eq, Debug)]
pub enum BlendOperation {
    /// `src * src_factor + dst * dst_factor`.
    Add,
}

/// Depth comparison functions.
#[derive(Clone, Copy, PartialEq, Eq, Debug)]
pub enum CompareFunction {
    /// A fragment passes when its depth is less than the stored one.
    Less,
}

/// Winding order of front-facing triangles.
#[derive(Clone, Copy, PartialEq, Eq, Debug)]
pub enum FrontFace {
    /// Clockwise.
    Cw,
}

/// Which triangles are culled.
#[derive(Clone, Copy, PartialEq, Eq, Debug)]
pub enum CullMode {
    /// No triangle is culled.
    Disabled,
}

/// How vertices are assembled into primitives.
#[derive(Clone, Copy, PartialEq, Eq, Debug)]
pub enum PrimitiveTopology {
    /// Every three indices form a triangle.
    TriangleList,
}

/// What an attachment holds at the start of a render pass.
#[derive(Clone, Copy, PartialEq, Eq, Debug)]
pub enum LoadOp {
    /// Cleared to the attachment's clear value.
    Clear,
    /// The contents left by earlier passes.
    Load,
}

/// What happens to an attachment at the end of a render pass.
#[derive(Clone, Copy, PartialEq, Eq, Debug)]
pub enum StoreOp {
    /// The results are kept.
    Store,
}

/// The set of ways a texture may be used.
#[derive(Clone, Copy, PartialEq, Eq, Debug)]
pub struct TextureUsage {
    pub copy_src: bool,
    pub copy_dst: bool,
    pub sampled: bool,
    pub storage: bool,
    pub output_attachment: bool,
}

/// The set of ways a buffer may be used.
#[derive(Clone, Copy, PartialEq, Eq, Debug)]
pub struct BufferUsage {
    pub map_read: bool,
    pub map_write: bool,
    pub copy_src: bool,
    pub copy_dst: bool,
    pub index: bool,
    pub vertex: bool,
    pub uniform: bool,
    pub storage: bool,
}

/// The set of shader stages that see a binding.
#[derive(Clone, Copy, PartialEq, Eq, Debug)]
pub struct ShaderStages {
    pub vertex: bool,
    pub fragment: bool,
    pub compute: bool,
}

/// The set of color channels a color target writes.
#[derive(Clone, Copy, PartialEq, Eq, Debug)]
pub struct ColorWrites {
    pub red: bool,
    pub green: bool,
    pub blue: bool,
    pub alpha: bool,
}

/// Bytes that one 32-bit float occupies.
pub const F32_BYTES: u64 = 4;

/// Bytes that one attribute of the given format occupies.
pub open spec fn vertex_format_size(format: VertexFormat) -> nat {
    match format {
        VertexFormat::Float3 => 3 * 4,
    }
}

/// Bytes that one index of the given format occupies.
pub open spec fn index_format_size(format: IndexFormat) -> nat {
    match format {
        IndexFormat::Uint16 => 2,
    }
}

impl VertexFormat {
    /// Bytes that one attribute of this format occupies.
    pub fn byte_size(&self) -> (r: u64)
        ensures
            r == vertex_format_size(*self),
    {
        match self {
            VertexFormat::Float3 => 3 * F32_BYTES,
        }
    }
}

impl IndexFormat {
    /// Bytes that one index of this format occupies.
    pub fn byte_size(&self) -> (r: u64)
        ensures
            r == index_format_size(*self),
    {
        match self {
            IndexFormat::Uint16 => 2,
        }
    }
}

impl ColorWrites {
    /// Every color channel.
    pub fn all() -> (r: ColorWrites)
        ensures
            r.red && r.green && r.blue && r.alpha,
    {
        ColorWrites { red: true, green: true, blue: true, alpha: true }
    }
}

} // verus!
