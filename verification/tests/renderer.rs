use webgpu_renderer::commands::{AttachmentView, ColorAttachment, Command, DepthStencilAttachment};
use webgpu_renderer::formats::{
    BindingType, BlendFactor, BlendOperation, BufferUsage, ColorWrites, CompareFunction, CullMode,
    FrontFace, IndexFormat, InputStepMode, LoadOp, PrimitiveTopology, ShaderStages, StoreOp,
    TextureFormat, TextureUsage, VertexFormat,
};
use webgpu_renderer::mesh::{triangle_mesh, uniform_buffer, BufferDesc, BufferId, UNIFORM_FLOATS};
use webgpu_renderer::pipeline::{
    single_attribute_buffer, source_over_blend, triangle_pipeline, triangle_vertex_state,
    uniform_bind_group, uniform_bind_group_layout, BindGroupEntry, BindGroupLayoutEntry,
    BlendState, DepthStencilState, ProgrammableStage, RasterizationState, ShaderId,
    VertexAttribute,
};
use webgpu_renderer::renderer::{Extent3d, TextureDesc, WebGpuRenderer};
use webgpu_renderer::shaders::{
    fragment_shader_spirv, vertex_shader_spirv, FRAGMENT_SHADER_WORDS, SPIRV_MAGIC,
    SPIRV_VERSION_1_0, VERTEX_SHADER_WORDS,
};

fn vertex_only() -> BufferUsage {
    BufferUsage {
        map_read: false,
        map_write: false,
        copy_src: false,
        copy_dst: false,
        index: false,
        vertex: true,
        uniform: false,
        storage: false,
    }
}

fn expected_pass(width: u32, height: u32) -> Vec<Command> {
    vec![
        Command::BeginRenderPass {
            color: ColorAttachment {
                view: AttachmentView::CurrentSwapChainTexture,
                load_op: LoadOp::Clear,
                store_op: StoreOp::Store,
            },
            depth_stencil: DepthStencilAttachment {
                view: AttachmentView::DepthTexture,
                depth_load_op: LoadOp::Clear,
                depth_store_op: StoreOp::Store,
                stencil_load_op: LoadOp::Load,
                stencil_store_op: StoreOp::Store,
            },
        },
        Command::SetPipeline,
        Command::SetViewport { x: 0, y: 0, width, height },
        Command::SetScissorRect { x: 0, y: 0, width, height },
        Command::SetVertexBuffer { slot: 0, buffer: BufferId::Positions },
        Command::SetVertexBuffer { slot: 1, buffer: BufferId::Colors },
        Command::SetIndexBuffer { buffer: BufferId::Indices },
        Command::DrawIndexed {
            index_count: 3,
            instance_count: 1,
            first_index: 0,
            base_vertex: 0,
            first_instance: 0,
        },
        Command::EndPass,
        Command::Submit,
    ]
}

#[test]
fn format_sizes() {
    assert_eq!(VertexFormat::Float3.byte_size(), 12);
    assert_eq!(IndexFormat::Uint16.byte_size(), 2);
}

#[test]
fn triangle_mesh_has_three_indexed_vertices() {
    let mesh = triangle_mesh();
    assert_eq!(mesh.vertex_count, 3);
    assert_eq!(mesh.indices, vec![0u16, 1, 2]);
    assert_eq!(mesh.attribute_buffer(VertexFormat::Float3), BufferDesc { size: 36, usage: vertex_only() });
    let index = mesh.index_buffer(IndexFormat::Uint16);
    assert_eq!(index.size, 6);
    assert!(index.usage.index && !index.usage.vertex && !index.usage.uniform);
}

#[test]
fn uniform_buffer_holds_matrix_and_two_colors() {
    let buffer = uniform_buffer();
    assert_eq!(UNIFORM_FLOATS, 24);
    assert_eq!(buffer.size, 96);
    assert!(buffer.usage.uniform && buffer.usage.copy_dst);
    assert!(!buffer.usage.vertex && !buffer.usage.index && !buffer.usage.map_write);
}

#[test]
fn shader_modules_are_the_precompiled_words() {
    let vertex = vertex_shader_spirv();
    let fragment = fragment_shader_spirv();
    assert_eq!(vertex.len(), VERTEX_SHADER_WORDS);
    assert_eq!(vertex.len(), 220);
    assert_eq!(fragment.len(), FRAGMENT_SHADER_WORDS);
    assert_eq!(fragment.len(), 143);
    assert_eq!(&vertex[..5], &[119734787, 65536, 524295, 30, 0]);
    assert_eq!(&fragment[..5], &[119734787, 65536, 524295, 19, 0]);
    assert_eq!(vertex[0], SPIRV_MAGIC);
    assert_eq!(vertex[1], SPIRV_VERSION_1_0);
    assert_eq!(vertex[219], 65592);
    assert_eq!(fragment[142], 65592);
    // The entry point name "main", packed little-endian into one word.
    assert_eq!(vertex[19], u32::from_le_bytes(*b"main"));
}

#[test]
fn vertex_state_has_positions_and_colors() {
    let state = triangle_vertex_state();
    assert_eq!(state.index_format, IndexFormat::Uint16);
    assert_eq!(state.vertex_buffers.len(), 2);
    for (slot, layout) in state.vertex_buffers.iter().enumerate() {
        assert_eq!(layout.array_stride, 12);
        assert_eq!(layout.step_mode, InputStepMode::Vertex);
        assert_eq!(
            layout.attributes,
            vec![VertexAttribute { format: VertexFormat::Float3, offset: 0, shader_location: slot as u32 }]
        );
    }
    assert_eq!(single_attribute_buffer(VertexFormat::Float3, 7).attributes[0].shader_location, 7);
}

#[test]
fn bind_group_binds_uniforms_at_zero() {
    assert_eq!(
        uniform_bind_group_layout(),
        vec![BindGroupLayoutEntry {
            binding: 0,
            ty: BindingType::UniformBuffer,
            visibility: ShaderStages { vertex: true, fragment: false, compute: false },
        }]
    );
    assert_eq!(uniform_bind_group(), vec![BindGroupEntry { binding: 0, buffer: BufferId::Uniforms }]);
}

#[test]
fn pipeline_configuration() {
    let pipeline = triangle_pipeline();
    let blend = BlendState {
        src_factor: BlendFactor::SrcAlpha,
        dst_factor: BlendFactor::OneMinusSrcAlpha,
        operation: BlendOperation::Add,
    };
    assert_eq!(source_over_blend(), blend);
    assert_eq!(pipeline.bind_group_layouts, vec![uniform_bind_group_layout()]);
    assert_eq!(pipeline.vertex_stage, ProgrammableStage { module: ShaderId::Vertex, entry_point: "main" });
    assert_eq!(pipeline.fragment_stage, ProgrammableStage { module: ShaderId::Fragment, entry_point: "main" });
    assert_eq!(pipeline.primitive_topology, PrimitiveTopology::TriangleList);
    assert_eq!(pipeline.rasterization, RasterizationState { front_face: FrontFace::Cw, cull_mode: CullMode::Disabled });
    assert_eq!(pipeline.color_states.len(), 1);
    assert_eq!(pipeline.color_states[0].format, TextureFormat::Bgra8unorm);
    assert_eq!(pipeline.color_states[0].alpha_blend, blend);
    assert_eq!(pipeline.color_states[0].color_blend, blend);
    assert_eq!(pipeline.color_states[0].write_mask, ColorWrites { red: true, green: true, blue: true, alpha: true });
    assert_eq!(ColorWrites::all(), pipeline.color_states[0].write_mask);
    assert_eq!(
        pipeline.depth_stencil,
        Some(DepthStencilState {
            format: TextureFormat::Depth24plusStencil8,
            depth_write_enabled: true,
            depth_compare: CompareFunction::Less,
        })
    );
    assert_eq!(pipeline.vertex_state, triangle_vertex_state());
}

#[test]
fn new_sets_up_for_the_canvas() {
    let r = WebGpuRenderer::new(640, 480);
    assert_eq!(r.swap_chain_format, TextureFormat::Bgra8unorm);
    assert_eq!(
        r.depth_texture,
        TextureDesc {
            format: TextureFormat::Depth24plusStencil8,
            size: Extent3d { width: 640, height: 480, depth: 1 },
            usage: TextureUsage {
                copy_src: true,
                copy_dst: false,
                sampled: false,
                storage: false,
                output_attachment: true,
            },
        }
    );
    assert_eq!(r.position_buffer.size, 36);
    assert_eq!(r.color_buffer.size, 36);
    assert_eq!(r.index_buffer.size, 6);
    assert_eq!(r.uniform_buffer.size, 96);
    assert_eq!(r.mesh.indices, vec![0, 1, 2]);
    assert_eq!(r.vertex_shader, vertex_shader_spirv());
    assert_eq!(r.fragment_shader, fragment_shader_spirv());
    assert_eq!(r.bind_group, uniform_bind_group());
    assert_eq!(r.pipeline, triangle_pipeline());
}

#[test]
fn new_on_an_empty_canvas() {
    let r = WebGpuRenderer::new(0, 0);
    assert_eq!(r.depth_texture.size, Extent3d { width: 0, height: 0, depth: 1 });
    assert_eq!(r.encode_commands(0, 0), expected_pass(0, 0));
}

#[test]
fn encode_commands_records_one_pass() {
    let r = WebGpuRenderer::new(800, 600);
    assert_eq!(r.encode_commands(800, 600), expected_pass(800, 600));
    assert_eq!(r.encode_commands(u32::MAX, 1), expected_pass(u32::MAX, 1));
}

#[test]
fn draw_acquires_then_encodes() {
    let r = WebGpuRenderer::new(800, 600);
    let mut expected = vec![Command::AcquireSwapChainTexture];
    expected.extend(expected_pass(1024, 768));
    assert_eq!(r.draw(1024, 768), expected);
    assert_eq!(r.draw(1024, 768), r.draw(1024, 768));
}

#[test]
fn frame_stays_within_the_buffers() {
    let r = WebGpuRenderer::new(320, 240);
    for command in r.draw(320, 240) {
        match command {
            Command::SetVertexBuffer { slot, buffer } => {
                let layout = &r.pipeline.vertex_state.vertex_buffers[slot as usize];
                let desc = match buffer {
                    BufferId::Positions => r.position_buffer,
                    BufferId::Colors => r.color_buffer,
                    BufferId::Indices => r.index_buffer,
                    BufferId::Uniforms => r.uniform_buffer,
                };
                assert!(desc.usage.vertex);
                assert_eq!(desc.size, r.mesh.vertex_count as u64 * layout.array_stride);
            }
            Command::SetIndexBuffer { buffer } => {
                assert_eq!(buffer, BufferId::Indices);
                assert_eq!(r.index_buffer.size, r.mesh.indices.len() as u64 * 2);
            }
            Command::DrawIndexed { index_count, first_index, base_vertex, .. } => {
                let end = (first_index + index_count) as usize;
                assert!(end <= r.mesh.indices.len());
                for &index in &r.mesh.indices[first_index as usize..end] {
                    assert!((index as i64 + base_vertex as i64) < r.mesh.vertex_count as i64);
                }
            }
            _ => {}
        }
    }
}

#[test]
fn viewport_matches_depth_texture_while_size_is_unchanged() {
    let r = WebGpuRenderer::new(320, 240);
    let pass = r.encode_commands(320, 240);
    assert_eq!(pass[2], Command::SetViewport { x: 0, y: 0, width: r.depth_texture.size.width, height: r.depth_texture.size.height });
    assert_eq!(pass[3], Command::SetScissorRect { x: 0, y: 0, width: 320, height: 240 });
}

#[test]
fn viewport_follows_a_resized_canvas_but_depth_texture_does_not() {
    let r = WebGpuRenderer::new(320, 240);
    let pass = r.encode_commands(640, 480);
    assert_eq!(pass[2], Command::SetViewport { x: 0, y: 0, width: 640, height: 480 });
    assert_eq!(r.depth_texture.size, Extent3d { width: 320, height: 240, depth: 1 });
}

#[test]
fn pipeline_targets_match_attachments() {
    let r = WebGpuRenderer::new(1, 1);
    assert_eq!(r.pipeline.color_states[0].format, r.swap_chain_format);
    assert_eq!(r.pipeline.depth_stencil.unwrap().format, r.depth_texture.format);
    assert!(r.depth_texture.usage.output_attachment);
    let layout = &r.pipeline.bind_group_layouts[0];
    assert_eq!(layout.len(), r.bind_group.len());
    assert_eq!(layout[0].binding, r.bind_group[0].binding);
    assert!(r.uniform_buffer.usage.uniform);
}

#[test]
fn shader_interfaces_match_the_pipeline() {
    let main = u32::from_le_bytes(*b"main");
    let vertex = vertex_shader_spirv();
    // OpEntryPoint Vertex %4 "main"
    assert_eq!(vertex[16] & 0xffff, 15);
    assert_eq!(vertex[17], 0);
    assert_eq!(&vertex[19..21], &[main, 0]);
    // OpDecorate %20 Location 0, OpVariable %20 Input: the position input.
    assert_eq!(&vertex[94..98], &[262215, 20, 30, 0]);
    assert_eq!(&vertex[153..157], &[262203, 10, 20, 1]);
    // OpDecorate %11 Location 1, OpVariable %11 Input: the color input.
    assert_eq!(&vertex[82..86], &[262215, 11, 30, 1]);
    assert_eq!(&vertex[122..126], &[262203, 10, 11, 1]);

    let fragment = fragment_shader_spirv();
    // OpEntryPoint Fragment %4 "main"
    assert_eq!(fragment[16] & 0xffff, 15);
    assert_eq!(fragment[17], 4);
    assert_eq!(&fragment[19..21], &[main, 0]);
    // OpDecorate %9 Location 0, OpVariable %9 Output: the color output.
    assert_eq!(&fragment[61..65], &[262215, 9, 30, 0]);
    assert_eq!(&fragment[85..89], &[262203, 8, 9, 3]);

    let pipeline = triangle_pipeline();
    assert_eq!(pipeline.vertex_stage.entry_point, "main");
    assert_eq!(pipeline.fragment_stage.entry_point, "main");
    let locations: Vec<u32> = pipeline
        .vertex_state
        .vertex_buffers
        .iter()
        .flat_map(|layout| layout.attributes.iter().map(|a| a.shader_location))
        .collect();
    assert_eq!(locations, vec![0, 1]);
}
