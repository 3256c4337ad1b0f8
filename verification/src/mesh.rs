//! The integer shape of the drawn geometry and the buffers that hold it.
//!
//! The floating-point contents (positions, colors, the uniform block) are
//! uploaded by the host; this module fixes how many vertices and indices there
//! are and how many bytes each buffer occupies.
use vstd::prelude::*;
use crate::formats::{
    BufferUsage, IndexFormat, VertexFormat, F32_BYTES, index_format_size, vertex_format_size,
};

verus! {

/// The buffers the renderer creates, by role.
#[derive(Clone, Copy, PartialEq, Eq, Debug)]
pub enum BufferId {
    /// One position (three floats) per vertex.
    Positions,
    /// One color (three floats) per vertex.
    Colors,
    /// The 16-bit index list.
    Indices,
    /// The uniform block.
    Uniforms,
}

/// How many vertices the vertex buffers hold, and the index list that
/// assembles them into triangles.
pub struct MeshLayout {
    pub vertex_count: u32,
    pub indices: Vec<u16>,
}

/// A buffer to create: its size in bytes and its usages.
#[derive(Clone, Copy, PartialEq, Eq, Debug)]
pub struct BufferDesc {
    pub size: u64,
    pub usage: BufferUsage,
}

/// Number of 32-bit floats in the uniform block: a 4x4 transform followed by
/// two RGBA colors.
pub const UNIFORM_FLOATS: u64 = 24;

/// The index list of the single triangle.
pub open spec fn triangle_indices() -> Seq<u16> {
    seq![0u16, 1u16, 2u16]
}

/// A buffer that is read as vertex input and nothing else.
pub open spec fn vertex_usage() -> BufferUsage {
    BufferUsage {
        map_read: false,
        map_write: false,
        copy_src: false,
        copy_dst: false,
        index: false,
        vertex: true,
        uniform: false,
        storage: false,
    }
}

/// A buffer that is read as an index list and nothing else.
pub open spec fn index_usage() -> BufferUsage {
    BufferUsage {
        map_read: false,
        map_write: false,
        copy_src: false,
        copy_dst: false,
        index: true,
        vertex: false,
        uniform: false,
        storage: false,
    }
}

/// A buffer that is bound as a uniform block and may be written by copies.
pub open spec fn uniform_usage() -> BufferUsage {
    BufferUsage {
        map_read: false,
        map_write: false,
        copy_src: false,
        copy_dst: true,
        index: false,
        vertex: false,
        uniform: true,
        storage: false,
    }
}

impl MeshLayout {
    /// Every index names one of the vertices the vertex buffers hold.
    pub open spec fn indices_in_range(&self) -> bool {
        forall|i: int| 0 <= i < self.indices@.len() ==> (#[trigger] self.indices@[i]) < self.vertex_count
    }

    /// Bytes of a buffer holding one attribute of `format` per vertex.
    pub open spec fn attribute_bytes(&self, format: VertexFormat) -> nat {
        self.vertex_count as nat * vertex_format_size(format)
    }

    /// Bytes of the buffer holding the index list as `format`.
    pub open spec fn index_bytes(&self, format: IndexFormat) -> nat {
        self.indices@.len() * index_format_size(format)
    }

    /// The buffer for one per-vertex attribute of `format`.
    pub fn attribute_buffer(&self, format: VertexFormat) -> (b: BufferDesc)
        ensures
            b.size == self.attribute_bytes(format),
            b.usage == vertex_usage(),
    {
        let size = self.vertex_count as u64 * format.byte_size();
        BufferDesc {
            size,
            usage: BufferUsage {
                map_read: false,
                map_write: false,
                copy_src: false,
                copy_dst: false,
                index: false,
                vertex: true,
                uniform: false,
                storage: false,
            },
        }
    }

    /// The buffer for the index list, stored as `format`.
    pub fn index_buffer(&self, format: IndexFormat) -> (b: BufferDesc)
        requires
            self.index_bytes(format) <= u64::MAX,
        ensures
            b.size == self.index_bytes(format),
            b.usage == index_usage(),
    {
        let size = self.indices.len() as u64 * format.byte_size();
        BufferDesc {
            size,
            usage: BufferUsage {
                map_read: false,
                map_write: false,
                copy_src: false,
                copy_dst: false,
                index: true,
                vertex: false,
                uniform: false,
                storage: false,
            },
        }
    }
}

/// The single triangle: three vertices, indexed in order.
pub fn triangle_mesh() -> (m: MeshLayout)
    ensures
        m.vertex_count == 3,
        m.indices@ == triangle_indices(),
{
    MeshLayout { vertex_count: 3, indices: vec![0, 1, 2] }
}

/// The uniform buffer: room for the uniform block, bindable as uniforms and
/// writable by copies.
pub fn uniform_buffer() -> (b: BufferDesc)
    ensures
        b.size == UNIFORM_FLOATS * F32_BYTES,
        b.usage == uniform_usage(),
{
    BufferDesc {
        size: UNIFORM_FLOATS * F32_BYTES,
        usage: BufferUsage {
            map_read: false,
            map_write: false,
            copy_src: false,
            copy_dst: true,
            index: false,
            vertex: false,
            uniform: true,
            storage: false,
        },
    }
}

} // verus!
