//! Properties that hold between what the renderer sets up and what it records
//! each frame.
use vstd::prelude::*;
use crate::commands::{AttachmentView, Command, frame, frame_pass};
use crate::formats::F32_BYTES;
use crate::mesh::{BufferId, UNIFORM_FLOATS};
use crate::formats::{
    BindingType, BlendFactor, BlendOperation, CompareFunction, LoadOp, PrimitiveTopology, StoreOp,
    index_format_size,
};
use crate::pipeline::BlendState;
use crate::renderer::WebGpuRenderer;
use crate::pipeline::ShaderId;
use crate::shaders::{
    SPIRV_MAGIC, SPIRV_VERSION_1_0, fragment_shader_module, vertex_shader_module,
};
use crate::spirv::{
    constant, constructs_vec4, declares_entry_point, declares_location, extracts, float_one,
    instruction, instruction_at, lemma_instructions_at, literal_string, loads, model_fragment,
    op_decorate, op_variable,
    model_vertex, passes_input_to_output, points_to_position_output, position_from_input, scales,
    storage_input, storage_output, stores, variable_at_location, writes_opaque_input,
};

verus! {

/// `command`, if it binds a vertex buffer, binds a vertex-usable buffer to a
/// slot the pipeline has a layout for, and the buffer holds exactly one
/// element of that layout per vertex.
pub open spec fn binds_fitting_vertex_buffer(r: WebGpuRenderer, command: Command) -> bool {
    match command {
        Command::SetVertexBuffer { slot, buffer } => {
            let layouts = r.pipeline.vertex_state.vertex_buffers@;
            &&& slot < layouts.len()
            &&& r.buffer(buffer).usage.vertex
            &&& r.buffer(buffer).size == r.mesh.vertex_count * layouts[slot as int].array_stride
        },
        _ => true,
    }
}

/// `command`, if it binds an index buffer, binds the index buffer, and that
/// buffer holds exactly the mesh's indices in the pipeline's index format.
pub open spec fn binds_whole_index_buffer(r: WebGpuRenderer, command: Command) -> bool {
    match command {
        Command::SetIndexBuffer { buffer } => {
            &&& r.buffer(buffer).usage.index
            &&& r.buffer(buffer).size == r.mesh.indices@.len() * index_format_size(
                r.pipeline.vertex_state.index_format,
            )
        },
        _ => true,
    }
}

/// `command`, if it draws, reads only indices the mesh has, and each of them
/// (offset by the base vertex) names a vertex the vertex buffers hold.
pub open spec fn draws_within_mesh(r: WebGpuRenderer, command: Command) -> bool {
    match command {
        Command::DrawIndexed { index_count, first_index, base_vertex, .. } => {
            &&& first_index + index_count <= r.mesh.indices@.len()
            &&& forall|j: int|
                first_index <= j < first_index + index_count ==> 0 <= #[trigger] r.mesh.indices@[j]
                    + base_vertex < r.mesh.vertex_count
        },
        _ => true,
    }
}

/// `command`, if it sets the viewport or the scissor rectangle, sets it to the
/// extent of the depth texture.
pub open spec fn covers_depth_texture(r: WebGpuRenderer, command: Command) -> bool {
    match command {
        Command::SetViewport { x, y, width, height } => {
            &&& x == 0 && y == 0
            &&& width == r.depth_texture.size.width
            &&& height == r.depth_texture.size.height
        },
        Command::SetScissorRect { x, y, width, height } => {
            &&& x == 0 && y == 0
            &&& width == r.depth_texture.size.width
            &&& height == r.depth_texture.size.height
        },
        _ => true,
    }
}

/// `command`, if it sets the scissor rectangle, keeps it inside a canvas of
/// `width` by `height` pixels.
pub open spec fn scissor_inside(command: Command, width: u32, height: u32) -> bool {
    match command {
        Command::SetScissorRect { x, y, width: w, height: h } => x + w <= width && y + h <= height,
        _ => true,
    }
}

/// Every vertex buffer a frame binds fits the pipeline's layout for its slot:
/// it is a vertex buffer and holds one element per vertex of the mesh.
pub proof fn frame_binds_fitting_vertex_buffers(
    r: WebGpuRenderer,
    setup_width: u32,
    setup_height: u32,
    width: u32,
    height: u32,
)
    requires
        r.configured_for(setup_width, setup_height),
    ensures
        forall|i: int|
            0 <= i < frame(width, height).len() ==> binds_fitting_vertex_buffer(
                r,
                #[trigger] frame(width, height)[i],
            ),
{
    let layouts = r.pipeline.vertex_state.vertex_buffers@;
    assert(layouts[0].array_stride == 12);
    assert(layouts[1].array_stride == 12);
}

/// The index buffer a frame binds holds exactly the mesh's index list in the
/// pipeline's index format.
pub proof fn frame_binds_whole_index_buffer(
    r: WebGpuRenderer,
    setup_width: u32,
    setup_height: u32,
    width: u32,
    height: u32,
)
    requires
        r.configured_for(setup_width, setup_height),
    ensures
        forall|i: int|
            0 <= i < frame(width, height).len() ==> binds_whole_index_buffer(
                r,
                #[trigger] frame(width, height)[i],
            ),
{
}

/// Every draw of a frame reads only indices the index list has, and every
/// index it reads names one of the vertices the vertex buffers hold.
pub proof fn frame_draws_within_mesh(
    r: WebGpuRenderer,
    setup_width: u32,
    setup_height: u32,
    width: u32,
    height: u32,
)
    requires
        r.configured_for(setup_width, setup_height),
    ensures
        forall|i: int|
            0 <= i < frame(width, height).len() ==> draws_within_mesh(
                r,
                #[trigger] frame(width, height)[i],
            ),
{
    assert(r.mesh.indices@[0] == 0 && r.mesh.indices@[1] == 1 && r.mesh.indices@[2] == 2);
}

/// While the canvas keeps the size the renderer was set up for, the viewport
/// and the scissor rectangle of every frame cover exactly the depth texture.
pub proof fn frame_covers_depth_texture(r: WebGpuRenderer, width: u32, height: u32)
    requires
        r.configured_for(width, height),
    ensures
        forall|i: int|
            0 <= i < frame(width, height).len() ==> covers_depth_texture(
                r,
                #[trigger] frame(width, height)[i],
            ),
{
}

/// The scissor rectangle of a frame lies inside the canvas it is drawn on.
pub proof fn frame_scissor_inside_canvas(width: u32, height: u32)
    ensures
        forall|i: int|
            0 <= i < frame(width, height).len() ==> scissor_inside(
                #[trigger] frame(width, height)[i],
                width,
                height,
            ),
{
}

/// The pipeline renders into what the frame attaches: its color target has
/// the swap chain's format, its depth test uses the depth texture's format,
/// and the depth texture may be used as an attachment.
pub proof fn pipeline_matches_attachments(r: WebGpuRenderer, width: u32, height: u32)
    requires
        r.configured_for(width, height),
    ensures
        r.pipeline.color_states@.len() == 1,
        r.pipeline.color_states@[0].format == r.swap_chain_format,
        r.pipeline.depth_stencil matches Some(ds) && ds.format == r.depth_texture.format,
        r.depth_texture.usage.output_attachment,
{
}

/// Every entry of the uniform bind group matches an entry of the pipeline's
/// bind group layout with the same binding number, and a buffer bound where
/// the layout expects a uniform buffer is usable as one.
pub proof fn bind_group_matches_layout(r: WebGpuRenderer, width: u32, height: u32)
    requires
        r.configured_for(width, height),
    ensures
        r.pipeline.bind_group_layouts@.len() == 1,
        r.bind_group@.len() == r.pipeline.bind_group_layouts@[0]@.len(),
        forall|k: int|
            0 <= k < r.bind_group@.len() ==> {
                let entry = #[trigger] r.bind_group@[k];
                let layout = r.pipeline.bind_group_layouts@[0]@[k];
                &&& entry.binding == layout.binding
                &&& layout.ty == BindingType::UniformBuffer ==> r.buffer(entry.buffer).usage.uniform
            },
{
}

/// Both shader modules are SPIR-V 1.0 modules.
pub proof fn shader_modules_are_spirv(r: WebGpuRenderer, width: u32, height: u32)
    requires
        r.configured_for(width, height),
    ensures
        r.vertex_shader@.len() > 5 && r.vertex_shader@[0] == SPIRV_MAGIC
            && r.vertex_shader@[1] == SPIRV_VERSION_1_0,
        r.fragment_shader@.len() > 5 && r.fragment_shader@[0] == SPIRV_MAGIC
            && r.fragment_shader@[1] == SPIRV_VERSION_1_0,
{
}

/// A frame attaches the acquired swap-chain texture as its color target,
/// cleared and stored, and the depth texture as its depth-stencil target,
/// depth cleared and stored and stencil kept; and it submits after ending its
/// render pass.
pub proof fn frame_renders_to_acquired_texture(width: u32, height: u32)
    ensures
        frame(width, height)[0] == Command::AcquireSwapChainTexture,
        frame(width, height)[1] matches Command::BeginRenderPass { color, depth_stencil }
            && color.view == AttachmentView::CurrentSwapChainTexture
            && color.load_op == LoadOp::Clear && color.store_op == StoreOp::Store
            && depth_stencil.view == AttachmentView::DepthTexture
            && depth_stencil.depth_load_op == LoadOp::Clear
            && depth_stencil.depth_store_op == StoreOp::Store
            && depth_stencil.stencil_load_op == LoadOp::Load
            && depth_stencil.stencil_store_op == StoreOp::Store,
        frame(width, height)[frame(width, height).len() - 2] == Command::EndPass,
        frame(width, height).last() == Command::Submit,
{
}

} // verus!

verus! {

/// Instructions of the vertex shader module that its interface and data
/// flow are read from.
proof fn lemma_vertex_instructions()
    ensures
        instruction(vertex_shader_module(), 16, 15, 9),
        instruction(vertex_shader_module(), 78, 71, 4),
        instruction(vertex_shader_module(), 82, 71, 4),
        instruction(vertex_shader_module(), 86, 72, 5),
        instruction(vertex_shader_module(), 94, 71, 4),
        instruction(vertex_shader_module(), 114, 59, 4),
        instruction(vertex_shader_module(), 122, 59, 4),
        instruction(vertex_shader_module(), 133, 32, 4),
        instruction(vertex_shader_module(), 137, 59, 4),
        instruction(vertex_shader_module(), 145, 43, 4),
        instruction(vertex_shader_module(), 149, 43, 4),
        instruction(vertex_shader_module(), 153, 59, 4),
        instruction(vertex_shader_module(), 157, 43, 4),
        instruction(vertex_shader_module(), 172, 61, 4),
        instruction(vertex_shader_module(), 176, 62, 3),
        instruction(vertex_shader_module(), 179, 61, 4),
        instruction(vertex_shader_module(), 183, 81, 5),
        instruction(vertex_shader_module(), 188, 81, 5),
        instruction(vertex_shader_module(), 193, 81, 5),
        instruction(vertex_shader_module(), 198, 80, 7),
        instruction(vertex_shader_module(), 205, 142, 5),
        instruction(vertex_shader_module(), 210, 65, 5),
        instruction(vertex_shader_module(), 215, 62, 3),
{
    let words = vertex_shader_module();
    let starts = seq![5int, 7, 13, 16, 25, 28, 37, 46, 50, 55, 59, 65, 71, 74, 78, 82, 86, 91, 94, 98, 100, 103, 106, 110, 114, 118, 122, 126, 130, 133, 137, 141, 145, 149, 153, 157, 161, 165, 170, 172, 176, 179, 183, 188, 193, 198, 205, 210, 215, 218, 219];
    lemma_instructions_at(words, starts);
    assert(starts[3] == 16);
    assert(starts[14] == 78);
    assert(starts[15] == 82);
    assert(starts[16] == 86);
    assert(starts[18] == 94);
    assert(starts[24] == 114);
    assert(starts[26] == 122);
    assert(starts[29] == 133);
    assert(starts[30] == 137);
    assert(starts[32] == 145);
    assert(starts[33] == 149);
    assert(starts[34] == 153);
    assert(starts[35] == 157);
    assert(starts[39] == 172);
    assert(starts[40] == 176);
    assert(starts[41] == 179);
    assert(starts[42] == 183);
    assert(starts[43] == 188);
    assert(starts[44] == 193);
    assert(starts[45] == 198);
    assert(starts[46] == 205);
    assert(starts[47] == 210);
    assert(starts[48] == 215);
}

/// Instructions of the fragment shader module that its interface and data
/// flow are read from.
proof fn lemma_fragment_instructions()
    ensures
        instruction(fragment_shader_module(), 16, 15, 7),
        instruction(fragment_shader_module(), 61, 71, 4),
        instruction(fragment_shader_module(), 65, 71, 4),
        instruction(fragment_shader_module(), 85, 59, 4),
        instruction(fragment_shader_module(), 97, 59, 4),
        instruction(fragment_shader_module(), 101, 43, 4),
        instruction(fragment_shader_module(), 112, 61, 4),
        instruction(fragment_shader_module(), 116, 81, 5),
        instruction(fragment_shader_module(), 121, 81, 5),
        instruction(fragment_shader_module(), 126, 81, 5),
        instruction(fragment_shader_module(), 131, 80, 7),
        instruction(fragment_shader_module(), 138, 62, 3),
{
    let words = fragment_shader_module();
    let starts = seq![5int, 7, 13, 16, 23, 26, 29, 38, 47, 51, 57, 61, 65, 69, 71, 74, 77, 81, 85, 89, 93, 97, 101, 105, 110, 112, 116, 121, 126, 131, 138, 141, 142];
    lemma_instructions_at(words, starts);
    assert(starts[3] == 16);
    assert(starts[11] == 61);
    assert(starts[12] == 65);
    assert(starts[18] == 85);
    assert(starts[21] == 97);
    assert(starts[22] == 101);
    assert(starts[25] == 112);
    assert(starts[26] == 116);
    assert(starts[27] == 121);
    assert(starts[28] == 126);
    assert(starts[29] == 131);
    assert(starts[30] == 138);
}

/// The words of the literal string `main`.
proof fn lemma_main_literal()
    ensures
        "main"@.len() == 4,
        literal_string("main"@).len() == 2,
        literal_string("main"@)[0] == 1852399981,
        literal_string("main"@)[1] == 0,
{
    reveal_strlit("main");
}

/// Each shader stage of the pipeline enters its own module at an entry point
/// that the module declares for that stage's execution model.
pub proof fn stages_enter_declared_entry_points(r: WebGpuRenderer, width: u32, height: u32)
    requires
        r.configured_for(width, height),
    ensures
        r.pipeline.vertex_stage.module == ShaderId::Vertex,
        declares_entry_point(r.vertex_shader@, model_vertex(), r.pipeline.vertex_stage.entry_point@),
        r.pipeline.fragment_stage.module == ShaderId::Fragment,
        declares_entry_point(
            r.fragment_shader@,
            model_fragment(),
            r.pipeline.fragment_stage.entry_point@,
        ),
{
    lemma_vertex_instructions();
    lemma_fragment_instructions();
    lemma_main_literal();
    let name = "main"@;
    let vertex = r.vertex_shader@;
    assert(vertex[16] as int % 65536 == 15);
    assert forall|k: int| 0 <= k < literal_string(name).len() implies vertex[16 + 3 + k]
        == #[trigger] literal_string(name)[k] by {
        assert(k == 0 || k == 1);
    }
    assert(instruction_at(vertex, 16));
    let fragment = r.fragment_shader@;
    assert(fragment[16] as int % 65536 == 15);
    assert forall|k: int| 0 <= k < literal_string(name).len() implies fragment[16 + 3 + k]
        == #[trigger] literal_string(name)[k] by {
        assert(k == 0 || k == 1);
    }
    assert(instruction_at(fragment, 16));
}

/// Every attribute the pipeline's vertex buffers supply feeds an input
/// variable of the vertex shader at the attribute's location.
pub proof fn attributes_feed_vertex_inputs(r: WebGpuRenderer, width: u32, height: u32)
    requires
        r.configured_for(width, height),
    ensures
        forall|b: int, a: int|
            0 <= b < r.pipeline.vertex_state.vertex_buffers@.len() && 0 <= a
                < r.pipeline.vertex_state.vertex_buffers@[b].attributes@.len() ==> declares_location(
                r.vertex_shader@,
                storage_input(),
                #[trigger] r.pipeline.vertex_state.vertex_buffers@[b].attributes@[a].shader_location
                    as int,
            ),
{
    lemma_vertex_instructions();
    let vertex = r.vertex_shader@;
    assert(vertex[94] as int % 65536 == 71 && vertex[153] as int % 65536 == 59);
    assert(instruction_at(vertex, 94) && instruction_at(vertex, 153));
    assert(declares_location(vertex, storage_input(), 0));
    assert(vertex[82] as int % 65536 == 71 && vertex[122] as int % 65536 == 59);
    assert(instruction_at(vertex, 82) && instruction_at(vertex, 122));
    assert(declares_location(vertex, storage_input(), 1));
}

/// The fragment shader writes an output at the location of every color
/// target of the pipeline.
pub proof fn fragment_outputs_cover_color_targets(r: WebGpuRenderer, width: u32, height: u32)
    requires
        r.configured_for(width, height),
    ensures
        forall|k: int|
            0 <= k < r.pipeline.color_states@.len() ==> declares_location(
                r.fragment_shader@,
                storage_output(),
                k,
            ),
{
    lemma_fragment_instructions();
    let fragment = r.fragment_shader@;
    assert(fragment[61] as int % 65536 == 71 && fragment[85] as int % 65536 == 59);
    assert(instruction_at(fragment, 61) && instruction_at(fragment, 85));
    assert(declares_location(fragment, storage_output(), 0));
}

/// The vertex shader passes the color attribute (input location 1)
/// unchanged to its output at location 0, and writes the built-in position
/// from the position attribute (input location 0): its three components with
/// a fourth component 1.0, scaled by a constant.
pub proof fn vertex_shader_passes_color_and_places_position(
    r: WebGpuRenderer,
    width: u32,
    height: u32,
)
    requires
        r.configured_for(width, height),
    ensures
        passes_input_to_output(r.vertex_shader@, 1, 0),
        position_from_input(r.vertex_shader@, 0),
{
    lemma_vertex_instructions();
    let words = r.vertex_shader@;
    assert(variable_at_location(words, 11, storage_input(), 1)) by {
        assert(instruction(words, 82, op_decorate(), 4) && instruction(words, 122, op_variable(), 4));
        assert(words[83] == 11 && words[84] == 30 && words[85] == 1);
        assert(words[124] == 11 && words[125] == 1);
    }
    assert(variable_at_location(words, 9, storage_output(), 0)) by {
        assert(instruction(words, 78, op_decorate(), 4) && instruction(words, 114, op_variable(), 4));
    }
    assert(loads(words, 12, 11)) by {
        assert(instruction(words, 172, 61, 4));
    }
    assert(stores(words, 9, 12)) by {
        assert(instruction(words, 176, 62, 3));
    }
    assert(passes_input_to_output(words, 1, 0));

    assert(variable_at_location(words, 20, storage_input(), 0)) by {
        assert(instruction(words, 94, op_decorate(), 4) && instruction(words, 153, op_variable(), 4));
    }
    assert(loads(words, 21, 20)) by {
        assert(instruction(words, 179, 61, 4));
    }
    assert(extracts(words, 23, 21, 0)) by {
        assert(instruction(words, 183, 81, 5));
    }
    assert(extracts(words, 24, 21, 1)) by {
        assert(instruction(words, 188, 81, 5));
    }
    assert(extracts(words, 25, 21, 2)) by {
        assert(instruction(words, 193, 81, 5));
    }
    assert(constant(words, 22, float_one())) by {
        assert(instruction(words, 157, 43, 4));
    }
    assert(constructs_vec4(words, 26, 23, 24, 25, 22)) by {
        assert(instruction(words, 198, 80, 7));
    }
    assert(constant(words, 19, 1048576000)) by {
        assert(instruction(words, 149, 43, 4));
    }
    assert(scales(words, 27, 26, 19)) by {
        assert(instruction(words, 205, 142, 5));
    }
    assert(constant(words, 18, 0)) by {
        assert(instruction(words, 145, 43, 4));
    }
    assert(points_to_position_output(words, 29)) by {
        assert(instruction(words, 210, 65, 5));
        assert(instruction(words, 137, op_variable(), 4));
        assert(instruction(words, 133, 32, 4));
        assert(instruction(words, 86, 72, 5));
    }
    assert(stores(words, 29, 27)) by {
        assert(instruction(words, 215, 62, 3));
    }
    assert(position_from_input(words, 0));
}

/// The fragment shader writes the interpolated color (input location 0)
/// with an alpha of 1.0 to its output at location 0, the color target.
pub proof fn fragment_shader_writes_opaque_color(r: WebGpuRenderer, width: u32, height: u32)
    requires
        r.configured_for(width, height),
    ensures
        writes_opaque_input(r.fragment_shader@, 0, 0),
{
    lemma_fragment_instructions();
    let words = r.fragment_shader@;
    assert(variable_at_location(words, 12, storage_input(), 0)) by {
        assert(instruction(words, 65, op_decorate(), 4) && instruction(words, 97, op_variable(), 4));
        assert(words[66] == 12 && words[67] == 30 && words[68] == 0);
        assert(words[99] == 12 && words[100] == 1);
    }
    assert(variable_at_location(words, 9, storage_output(), 0)) by {
        assert(instruction(words, 61, op_decorate(), 4) && instruction(words, 85, op_variable(), 4));
    }
    assert(loads(words, 13, 12)) by {
        assert(instruction(words, 112, 61, 4));
    }
    assert(extracts(words, 15, 13, 0)) by {
        assert(instruction(words, 116, 81, 5));
    }
    assert(extracts(words, 16, 13, 1)) by {
        assert(instruction(words, 121, 81, 5));
    }
    assert(extracts(words, 17, 13, 2)) by {
        assert(instruction(words, 126, 81, 5));
    }
    assert(constant(words, 14, float_one())) by {
        assert(instruction(words, 101, 43, 4));
    }
    assert(constructs_vec4(words, 18, 15, 16, 17, 14)) by {
        assert(instruction(words, 131, 80, 7));
    }
    assert(stores(words, 9, 18)) by {
        assert(instruction(words, 138, 62, 3));
    }
    assert(writes_opaque_input(words, 0, 0));
}

/// Every frame draws the whole index list exactly once: it has exactly one
/// draw, and that draw reads all of the mesh's indices from the first, as one
/// instance, with no vertex or instance offset, whatever the canvas size.
pub proof fn frame_draws_whole_mesh_once(
    r: WebGpuRenderer,
    setup_width: u32,
    setup_height: u32,
    width: u32,
    height: u32,
)
    requires
        r.configured_for(setup_width, setup_height),
    ensures
        exists|i: int| 0 <= i < frame(width, height).len() && #[trigger] frame(width, height)[i] is DrawIndexed,
        forall|i: int, j: int|
            0 <= i < frame(width, height).len() && 0 <= j < frame(width, height).len()
                && #[trigger] frame(width, height)[i] is DrawIndexed
                && #[trigger] frame(width, height)[j] is DrawIndexed ==> i == j,
        forall|i: int|
            0 <= i < frame(width, height).len() ==> match #[trigger] frame(width, height)[i] {
                Command::DrawIndexed {
                    index_count,
                    instance_count,
                    first_index,
                    base_vertex,
                    first_instance,
                } => {
                    &&& index_count == r.mesh.indices@.len()
                    &&& instance_count == 1
                    &&& first_index == 0
                    &&& base_vertex == 0
                    &&& first_instance == 0
                },
                _ => true,
            },
{
    assert(frame(width, height)[8] is DrawIndexed);
}

/// The buffer a frame binds to each vertex slot holds the attribute that the
/// pipeline's layout for that slot feeds the vertex shader: the position
/// buffer goes to the slot whose location the shader turns into the built-in
/// position, the color buffer to the slot whose location the shader passes on
/// as the color; and both buffers are bound.
pub proof fn frame_binds_each_attribute_to_its_slot(
    r: WebGpuRenderer,
    setup_width: u32,
    setup_height: u32,
    width: u32,
    height: u32,
)
    requires
        r.configured_for(setup_width, setup_height),
    ensures
        forall|i: int|
            0 <= i < frame(width, height).len() ==> match #[trigger] frame(width, height)[i] {
                Command::SetVertexBuffer { slot, buffer } => {
                    let layouts = r.pipeline.vertex_state.vertex_buffers@;
                    &&& slot < layouts.len()
                    &&& layouts[slot as int].attributes@.len() == 1
                    &&& {
                        let location = layouts[slot as int].attributes@[0].shader_location as int;
                        ||| buffer == BufferId::Positions && position_from_input(r.vertex_shader@, location)
                        ||| buffer == BufferId::Colors && passes_input_to_output(r.vertex_shader@, location, 0)
                    }
                },
                _ => true,
            },
        exists|i: int|
            0 <= i < frame(width, height).len() && #[trigger] frame(width, height)[i] == (Command::SetVertexBuffer { slot: 0, buffer: BufferId::Positions }),
        exists|i: int|
            0 <= i < frame(width, height).len() && #[trigger] frame(width, height)[i] == (Command::SetVertexBuffer { slot: 1, buffer: BufferId::Colors }),
{
    vertex_shader_passes_color_and_places_position(r, setup_width, setup_height);
    let layouts = r.pipeline.vertex_state.vertex_buffers@;
    assert(layouts[0].attributes@[0].shader_location == 0);
    assert(layouts[1].attributes@[0].shader_location == 1);
    assert(frame(width, height)[5] == (Command::SetVertexBuffer { slot: 0, buffer: BufferId::Positions }));
    assert(frame(width, height)[6] == (Command::SetVertexBuffer { slot: 1, buffer: BufferId::Colors }));
}

/// The commands of a frame depend on the canvas size only through the
/// viewport and the scissor rectangle: frames for any two sizes have the same
/// length and agree on every other command.
pub proof fn frame_depends_on_canvas_only_through_viewport(
    width1: u32,
    height1: u32,
    width2: u32,
    height2: u32,
)
    ensures
        frame(width1, height1).len() == frame(width2, height2).len(),
        forall|i: int|
            0 <= i < frame(width1, height1).len() && !(frame(width1, height1)[i] is SetViewport)
                && !(frame(width1, height1)[i] is SetScissorRect) ==> #[trigger] frame(width1, height1)[i]
                == #[trigger] frame(width2, height2)[i],
{
}

/// The viewport and the scissor rectangle of a frame are exactly the canvas
/// the frame is drawn on, and the frame sets both.
pub proof fn frame_viewport_is_canvas(width: u32, height: u32)
    ensures
        exists|i: int| 0 <= i < frame(width, height).len() && #[trigger] frame(width, height)[i] is SetViewport,
        exists|i: int| 0 <= i < frame(width, height).len() && #[trigger] frame(width, height)[i] is SetScissorRect,
        forall|i: int|
            0 <= i < frame(width, height).len() ==> match #[trigger] frame(width, height)[i] {
                Command::SetViewport { x, y, width: w, height: h } => x == 0 && y == 0 && w == width && h == height,
                Command::SetScissorRect { x, y, width: w, height: h } => x == 0 && y == 0 && w == width && h == height,
                _ => true,
            },
{
    assert(frame(width, height)[3] is SetViewport);
    assert(frame(width, height)[4] is SetScissorRect);
}

/// Drawing a frame is acquiring the swap-chain texture followed by exactly
/// the render pass that `encode_commands` records for the same canvas.
pub proof fn draw_is_acquire_then_encoded_pass(width: u32, height: u32)
    ensures
        frame(width, height).len() == frame_pass(width, height).len() + 1,
        frame(width, height)[0] == Command::AcquireSwapChainTexture,
        forall|i: int| 0 <= i < frame_pass(width, height).len() ==> #[trigger] frame(width, height)[i + 1] == frame_pass(width, height)[i],
{
}

/// What the renderer sets up does not depend on the canvas size, except for
/// the width and height of the depth texture.
pub proof fn setup_depends_on_canvas_only_through_depth_extent(
    r1: WebGpuRenderer,
    width1: u32,
    height1: u32,
    r2: WebGpuRenderer,
    width2: u32,
    height2: u32,
)
    requires
        r1.configured_for(width1, height1),
        r2.configured_for(width2, height2),
    ensures
        r1.swap_chain_format == r2.swap_chain_format,
        r1.depth_texture.format == r2.depth_texture.format,
        r1.depth_texture.usage == r2.depth_texture.usage,
        r1.depth_texture.size.depth == r2.depth_texture.size.depth,
        r1.mesh.vertex_count == r2.mesh.vertex_count,
        r1.mesh.indices@ == r2.mesh.indices@,
        r1.position_buffer == r2.position_buffer,
        r1.color_buffer == r2.color_buffer,
        r1.index_buffer == r2.index_buffer,
        r1.uniform_buffer == r2.uniform_buffer,
        r1.vertex_shader@ == r2.vertex_shader@,
        r1.fragment_shader@ == r2.fragment_shader@,
        r1.bind_group@ == r2.bind_group@,
        r1.pipeline.bind_group_layouts@.len() == r2.pipeline.bind_group_layouts@.len(),
        forall|k: int|
            0 <= k < r1.pipeline.bind_group_layouts@.len() ==> (#[trigger] r1.pipeline.bind_group_layouts@[k])@
                == r2.pipeline.bind_group_layouts@[k]@,
        r1.pipeline.vertex_stage == r2.pipeline.vertex_stage,
        r1.pipeline.fragment_stage == r2.pipeline.fragment_stage,
        r1.pipeline.primitive_topology == r2.pipeline.primitive_topology,
        r1.pipeline.rasterization == r2.pipeline.rasterization,
        r1.pipeline.color_states@ == r2.pipeline.color_states@,
        r1.pipeline.depth_stencil == r2.pipeline.depth_stencil,
        r1.pipeline.vertex_state.index_format == r2.pipeline.vertex_state.index_format,
        r1.pipeline.vertex_state.vertex_buffers@.len() == r2.pipeline.vertex_state.vertex_buffers@.len(),
        forall|k: int|
            0 <= k < r1.pipeline.vertex_state.vertex_buffers@.len() ==> {
                let l1 = #[trigger] r1.pipeline.vertex_state.vertex_buffers@[k];
                let l2 = r2.pipeline.vertex_state.vertex_buffers@[k];
                &&& l1.array_stride == l2.array_stride
                &&& l1.step_mode == l2.step_mode
                &&& l1.attributes@ == l2.attributes@
            },
{
}

/// The uniform buffer is exactly the size of the uniform block (a 4x4
/// matrix and two RGBA colors of 32-bit floats), is usable as a uniform
/// buffer, and is what the bind group binds; and the depth texture is one
/// layer the size of the canvas.
pub proof fn uniform_buffer_holds_uniform_block(r: WebGpuRenderer, width: u32, height: u32)
    requires
        r.configured_for(width, height),
    ensures
        r.uniform_buffer.size == UNIFORM_FLOATS * F32_BYTES,
        r.uniform_buffer.size == (4 * 4 + 2 * 4) * 4,
        r.uniform_buffer.usage.uniform,
        forall|k: int| 0 <= k < r.bind_group@.len() ==> (#[trigger] r.bind_group@[k]).buffer == BufferId::Uniforms,
        r.depth_texture.size.width == width,
        r.depth_texture.size.height == height,
        r.depth_texture.size.depth == 1,
{
}

/// Commands that are recorded inside a render pass.
pub open spec fn is_pass_command(command: Command) -> bool {
    ||| command is SetPipeline
    ||| command is SetViewport
    ||| command is SetScissorRect
    ||| command is SetVertexBuffer
    ||| command is SetIndexBuffer
    ||| command is DrawIndexed
}

/// A frame records one render pass: it begins the pass once, records every
/// pass command between the beginning and the end of the pass, sets the
/// pipeline, the vertex buffers and the index buffer before drawing, and
/// submits last, after the pass has ended.
pub proof fn frame_is_one_ordered_pass(width: u32, height: u32)
    ensures
        ({
            let f = frame(width, height);
            exists|begin: int, end: int|
                {
                    &&& 0 <= begin < end < f.len() - 1
                    &&& #[trigger] f[begin] is BeginRenderPass
                    &&& #[trigger] f[end] is EndPass
                    &&& f.last() == Command::Submit
                    &&& forall|i: int| 0 <= i < f.len() && f[i] is BeginRenderPass ==> i == begin
                    &&& forall|i: int| 0 <= i < f.len() && f[i] is Submit ==> i == f.len() - 1
                    &&& forall|i: int|
                        0 <= i < f.len() && is_pass_command(#[trigger] f[i]) ==> begin < i < end
                }
        }),
        forall|i: int, j: int|
            0 <= i < frame(width, height).len() && 0 <= j < frame(width, height).len()
                && #[trigger] frame(width, height)[j] is DrawIndexed && (
            #[trigger] frame(width, height)[i] is SetPipeline || frame(width, height)[i] is SetVertexBuffer
                || frame(width, height)[i] is SetIndexBuffer) ==> i < j,
{
    let f = frame(width, height);
    assert(f[1] is BeginRenderPass && f[9] is EndPass);
}

/// The blend value of one channel, in fixed point with `one` standing for
/// 1.0: the source and destination weighted by the state's factors and
/// combined by its operation.
pub open spec fn blend_channel(state: BlendState, src: int, dst: int, src_alpha: int, one: int) -> int {
    let factor = |f: BlendFactor|
        match f {
            BlendFactor::SrcAlpha => src_alpha,
            BlendFactor::OneMinusSrcAlpha => one - src_alpha,
        };
    match state.operation {
        BlendOperation::Add => src * factor(state.src_factor) + dst * factor(state.dst_factor),
    }
}

/// With the opaque color the fragment shader writes, the pipeline's blending
/// leaves exactly the source color on the target, for every channel and
/// whatever the target held; and nearer fragments win the depth test and
/// record their depth.
pub proof fn opaque_fragments_replace_the_target(
    r: WebGpuRenderer,
    width: u32,
    height: u32,
    src: int,
    dst: int,
    one: int,
)
    requires
        r.configured_for(width, height),
    ensures
        blend_channel(r.pipeline.color_states@[0].color_blend, src, dst, one, one) == src * one,
        blend_channel(r.pipeline.color_states@[0].alpha_blend, one, dst, one, one) == one * one,
        r.pipeline.depth_stencil matches Some(ds) && ds.depth_compare == CompareFunction::Less
            && ds.depth_write_enabled,
        r.pipeline.primitive_topology == PrimitiveTopology::TriangleList,
        r.mesh.indices@.len() % 3 == 0,
{
    assert(dst * (one - one) == 0) by (nonlinear_arith);
}

} // verus!
