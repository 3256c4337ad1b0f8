//! The renderer: everything it creates at start-up, and the commands it
//! records for each frame.
use vstd::prelude::*;
use crate::commands::{
    AttachmentView, ColorAttachment, Command, DepthStencilAttachment, frame, frame_pass,
};
use crate::formats::{IndexFormat, LoadOp, StoreOp, TextureFormat, TextureUsage, VertexFormat};
use crate::mesh::{
    BufferDesc, BufferId, MeshLayout, UNIFORM_FLOATS, index_usage, triangle_indices,
    triangle_mesh, uniform_buffer, uniform_usage, vertex_usage,
};
use crate::formats::F32_BYTES;
use crate::pipeline::{
    BindGroupEntry, RenderPipelineDesc, is_triangle_pipeline, triangle_pipeline,
    uniform_bind_group,
};
use crate::shaders::{
    fragment_shader_module, fragment_shader_spirv, vertex_shader_module, vertex_shader_spirv,
};

verus! {

/// Width, height and depth of a texture, in texels.
#[derive(Clone, Copy, PartialEq, Eq, Debug)]
pub struct Extent3d {
    pub width: u32,
    pub height: u32,
    pub depth: u32,
}

/// A texture to create.
#[derive(Clone, Copy, PartialEq, Eq, Debug)]
pub struct TextureDesc {
    pub format: TextureFormat,
    pub size: Extent3d,
    pub usage: TextureUsage,
}

/// What the renderer creates at start-up, as plain values: the swap chain's
/// format, the depth texture, the geometry and its buffers, the shader
/// modules, the uniform bind group and the render pipeline.
pub struct WebGpuRenderer {
    pub swap_chain_format: TextureFormat,
    pub depth_texture: TextureDesc,
    pub mesh: MeshLayout,
    pub position_buffer: BufferDesc,
    pub color_buffer: BufferDesc,
    pub index_buffer: BufferDesc,
    pub uniform_buffer: BufferDesc,
    pub vertex_shader: Vec<u32>,
    pub fragment_shader: Vec<u32>,
    pub bind_group: Vec<BindGroupEntry>,
    pub pipeline: RenderPipelineDesc,
}

/// The depth texture for a canvas of `width` by `height` pixels: one layer
/// of depth-stencil texels the size of the canvas, usable as a render
/// attachment and as a copy source.
pub open spec fn depth_texture_for(width: u32, height: u32) -> TextureDesc {
    TextureDesc {
        format: TextureFormat::Depth24plusStencil8,
        size: Extent3d { width, height, depth: 1 },
        usage: TextureUsage {
            copy_src: true,
            copy_dst: false,
            sampled: false,
            storage: false,
            output_attachment: true,
        },
    }
}

impl WebGpuRenderer {
    /// The renderer as it is set up for a canvas of `width` by `height`
    /// pixels.
    pub open spec fn configured_for(&self, width: u32, height: u32) -> bool {
        &&& self.swap_chain_format == TextureFormat::Bgra8unorm
        &&& self.depth_texture == depth_texture_for(width, height)
        &&& self.mesh.vertex_count == 3
        &&& self.mesh.indices@ == triangle_indices()
        &&& self.position_buffer == (BufferDesc {
            size: self.mesh.attribute_bytes(VertexFormat::Float3) as u64,
            usage: vertex_usage(),
        })
        &&& self.color_buffer == (BufferDesc {
            size: self.mesh.attribute_bytes(VertexFormat::Float3) as u64,
            usage: vertex_usage(),
        })
        &&& self.index_buffer == (BufferDesc {
            size: self.mesh.index_bytes(IndexFormat::Uint16) as u64,
            usage: index_usage(),
        })
        &&& self.uniform_buffer == (BufferDesc {
            size: (UNIFORM_FLOATS * F32_BYTES) as u64,
            usage: uniform_usage(),
        })
        &&& self.vertex_shader@ == vertex_shader_module()
        &&& self.fragment_shader@ == fragment_shader_module()
        &&& self.bind_group@ == seq![BindGroupEntry { binding: 0, buffer: BufferId::Uniforms }]
        &&& is_triangle_pipeline(self.pipeline)
    }

    /// The description of the buffer with the given role.
    pub open spec fn buffer(&self, id: BufferId) -> BufferDesc {
        match id {
            BufferId::Positions => self.position_buffer,
            BufferId::Colors => self.color_buffer,
            BufferId::Indices => self.index_buffer,
            BufferId::Uniforms => self.uniform_buffer,
        }
    }

    /// Sets up the renderer for a canvas of `canvas_width` by `canvas_height`
    /// pixels.
    pub fn new(canvas_width: u32, canvas_height: u32) -> (r: WebGpuRenderer)
        ensures
            r.configured_for(canvas_width, canvas_height),
    {
        let depth_texture = TextureDesc {
            format: TextureFormat::Depth24plusStencil8,
            size: Extent3d { width: canvas_width, height: canvas_height, depth: 1 },
            usage: TextureUsage {
                copy_src: true,
                copy_dst: false,
                sampled: false,
                storage: false,
                output_attachment: true,
            },
        };
        let mesh = triangle_mesh();
        let position_buffer = mesh.attribute_buffer(VertexFormat::Float3);
        let color_buffer = mesh.attribute_buffer(VertexFormat::Float3);
        let index_buffer = mesh.index_buffer(IndexFormat::Uint16);
        WebGpuRenderer {
            swap_chain_format: TextureFormat::Bgra8unorm,
            depth_texture,
            mesh,
            position_buffer,
            color_buffer,
            index_buffer,
            uniform_buffer: uniform_buffer(),
            vertex_shader: vertex_shader_spirv(),
            fragment_shader: fragment_shader_spirv(),
            bind_group: uniform_bind_group(),
            pipeline: triangle_pipeline(),
        }
    }

    /// The render pass of one frame on a canvas that is now `canvas_width` by
    /// `canvas_height` pixels, through its submission.
    pub fn encode_commands(&self, canvas_width: u32, canvas_height: u32) -> (commands: Vec<Command>)
        ensures
            commands@ == frame_pass(canvas_width, canvas_height),
    {
        let mut commands: Vec<Command> = Vec::new();
        commands.push(
            Command::BeginRenderPass {
                color: ColorAttachment {
                    view: AttachmentView::CurrentSwapChainTexture,
                    load_op: LoadOp::Clear,
                    store_op: StoreOp::Store,
                },
                depth_stencil: DepthStencilAttachment {
                    view: AttachmentView::DepthTexture,
                    depth_load_op: LoadOp::Clear,
                    depth_store_op: StoreOp::Store,
                    stencil_load_op: LoadOp::Load,
                    stencil_store_op: StoreOp::Store,
                },
            },
        );
        commands.push(Command::SetPipeline);
        commands.push(Command::SetViewport { x: 0, y: 0, width: canvas_width, height: canvas_height });
        commands.push(
            Command::SetScissorRect { x: 0, y: 0, width: canvas_width, height: canvas_height },
        );
        commands.push(Command::SetVertexBuffer { slot: 0, buffer: BufferId::Positions });
        commands.push(Command::SetVertexBuffer { slot: 1, buffer: BufferId::Colors });
        commands.push(Command::SetIndexBuffer { buffer: BufferId::Indices });
        commands.push(
            Command::DrawIndexed {
                index_count: 3,
                instance_count: 1,
                first_index: 0,
                base_vertex: 0,
                first_instance: 0,
            },
        );
        commands.push(Command::EndPass);
        commands.push(Command::Submit);
        commands
    }

    /// One frame on a canvas that is now `canvas_width` by `canvas_height`
    /// pixels: acquire the current swap-chain texture, then record and submit
    /// the render pass.
    pub fn draw(&self, canvas_width: u32, canvas_height: u32) -> (commands: Vec<Command>)
        ensures
            commands@ == frame(canvas_width, canvas_height),
    {
        let mut commands: Vec<Command> = Vec::new();
        commands.push(Command::AcquireSwapChainTexture);
        let mut pass = self.encode_commands(canvas_width, canvas_height);
        commands.append(&mut pass);
        commands
    }
}

} // verus!
