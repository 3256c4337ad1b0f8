//! The commands the renderer issues to draw one frame, in order.
//!
//! A frame acquires the current swap-chain texture, records one render pass
//! into a command encoder and submits it to the queue. Clear values and the
//! viewport's depth range are floating-point constants supplied by the host:
//! the color target is cleared to opaque black, the depth target to 1.0, and
//! the viewport spans depths 0.0 to 1.0.
use vstd::prelude::*;
use crate::formats::{LoadOp, StoreOp};
use crate::mesh::BufferId;

verus! {

/// The texture views a render pass attaches.
#[derive(Clone, Copy, PartialEq, Eq, Debug)]
pub enum AttachmentView {
    /// A view of the swap-chain texture acquired for this frame.
    CurrentSwapChainTexture,
    /// The view of the depth-stencil texture created at start-up.
    DepthTexture,
}

/// The color attachment of a render pass.
#[derive(Clone, Copy, PartialEq, Eq, Debug)]
pub struct ColorAttachment {
    pub view: AttachmentView,
    pub load_op: LoadOp,
    pub store_op: StoreOp,
}

/// The depth-stencil attachment of a render pass.
#[derive(Clone, Copy, PartialEq, Eq, Debug)]
pub struct DepthStencilAttachment {
    pub view: AttachmentView,
    pub depth_load_op: LoadOp,
    pub depth_store_op: StoreOp,
    pub stencil_load_op: LoadOp,
    pub stencil_store_op: StoreOp,
}

/// One step of drawing a frame.
#[derive(Clone, Copy, PartialEq, Eq, Debug)]
pub enum Command {
    /// Take the swap chain's current texture and create a view of it.
    AcquireSwapChainTexture,
    /// Create a command encoder and begin a render pass on it.
    BeginRenderPass { color: ColorAttachment, depth_stencil: DepthStencilAttachment },
    /// Bind the render pipeline.
    SetPipeline,
    /// Set the viewport rectangle, in pixels.
    SetViewport { x: u32, y: u32, width: u32, height: u32 },
    /// Set the scissor rectangle, in pixels.
    SetScissorRect { x: u32, y: u32, width: u32, height: u32 },
    /// Bind a buffer to a vertex buffer slot.
    SetVertexBuffer { slot: u32, buffer: BufferId },
    /// Bind the index buffer.
    SetIndexBuffer { buffer: BufferId },
    /// Draw indexed primitives.
    DrawIndexed {
        index_count: u32,
        instance_count: u32,
        first_index: u32,
        base_vertex: i32,
        first_instance: u32,
    },
    /// End the render pass.
    EndPass,
    /// Finish the command encoder and submit the command buffer to the queue.
    Submit,
}

/// The color attachment of the frame: the acquired swap-chain texture,
/// cleared and stored.
pub open spec fn frame_color_attachment() -> ColorAttachment {
    ColorAttachment {
        view: AttachmentView::CurrentSwapChainTexture,
        load_op: LoadOp::Clear,
        store_op: StoreOp::Store,
    }
}

/// The depth-stencil attachment of the frame: depth cleared and stored,
/// stencil loaded and stored.
pub open spec fn frame_depth_attachment() -> DepthStencilAttachment {
    DepthStencilAttachment {
        view: AttachmentView::DepthTexture,
        depth_load_op: LoadOp::Clear,
        depth_store_op: StoreOp::Store,
        stencil_load_op: LoadOp::Load,
        stencil_store_op: StoreOp::Store,
    }
}

/// The render pass of a frame on a canvas of `width` by `height` pixels, up to
/// and including its submission: the viewport and the scissor rectangle cover
/// the whole canvas, positions are bound to slot 0 and colors to slot 1, and
/// the three indices are drawn once. No command binds the uniform bind group
/// created at start-up.
pub open spec fn frame_pass(width: u32, height: u32) -> Seq<Command> {
    seq![
        Command::BeginRenderPass {
            color: frame_color_attachment(),
            depth_stencil: frame_depth_attachment(),
        },
        Command::SetPipeline,
        Command::SetViewport { x: 0, y: 0, width, height },
        Command::SetScissorRect { x: 0, y: 0, width, height },
        Command::SetVertexBuffer { slot: 0, buffer: BufferId::Positions },
        Command::SetVertexBuffer { slot: 1, buffer: BufferId::Colors },
        Command::SetIndexBuffer { buffer: BufferId::Indices },
        Command::DrawIndexed {
            index_count: 3,
            instance_count: 1,
            first_index: 0,
            base_vertex: 0,
            first_instance: 0,
        },
        Command::EndPass,
        Command::Submit,
    ]
}

/// A whole frame: acquire the swap-chain texture, then the render pass.
pub open spec fn frame(width: u32, height: u32) -> Seq<Command> {
    seq![Command::AcquireSwapChainTexture] + frame_pass(width, height)
}

} // verus!
