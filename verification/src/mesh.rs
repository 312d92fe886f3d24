//! The mesh record the rasterizer draws from: the names of its vertex buffer
//! and vertex array objects and its vertex count. Uploading vertex data is a
//! graphics call made outside this crate.

use vstd::prelude::*;

verus! {

/// One uploaded mesh: vertex buffer object, vertex array object, and how many
/// vertices it holds.
#[derive(Clone, Copy, PartialEq, Eq, Structural, Debug)]
pub struct Mesh {
    pub vbo: u32,
    pub vao: u32,
    pub vertex_count: i32,
}

impl Mesh {
    /// An empty mesh record with placeholder object names and no vertices.
    pub fn _create() -> (m: Mesh)
        ensures
            m.vbo == u32::MAX,
            m.vao == u32::MAX,
            m.vertex_count == 0,
    {
        Mesh { vbo: u32::MAX, vao: u32::MAX, vertex_count: 0 }
    }

    /// The mesh record for vertex data already uploaded into the given buffer
    /// and array objects.
    pub fn with_buffers(vbo: u32, vao: u32, vertex_count: usize) -> (m: Mesh)
        requires
            vertex_count <= i32::MAX,
        ensures
            m.vbo == vbo,
            m.vao == vao,
            m.vertex_count == vertex_count,
    {
        Mesh { vbo, vao, vertex_count: vertex_count as i32 }
    }
}

} // verus!
