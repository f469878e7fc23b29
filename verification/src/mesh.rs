//! A mesh as it is kept on the CPU before upload.

use vstd::prelude::*;

verus! {

/// Vertices of type `V` and the indices that draw them as triangles.
pub struct CpuMesh<V> {
    pub vertices: Vec<V>,
    pub indices: Vec<u16>,
    /// How many indices a draw call of the mesh covers.
    pub index_count: u32,
}

impl<V> CpuMesh<V> {
    /// A mesh of the given vertices and indices, whose draw call covers all
    /// of its indices.
    pub fn new(vertices: Vec<V>, indices: Vec<u16>) -> (mesh: Self)
        requires
            indices@.len() <= u32::MAX,
        ensures
            mesh.vertices == vertices,
            mesh.indices == indices,
            mesh.index_count == indices@.len(),
    {
        let c = indices.len() as u32;
        CpuMesh { vertices, indices, index_count: c }
    }
}

} // verus!
