//! Meshes: geometry that is rendered from a vertex buffer of its own.
use vstd::prelude::*;
use crate::vertex_buffer::VertexBuffer;

verus! {

/// Used to render a single mesh.
#[derive(Debug, PartialEq)]
pub struct Mesh {
    pub vert_buff: VertexBuffer,
}

impl Mesh {
    /// Gives up the vertex buffer: the object to release, if the mesh still
    /// holds one. The mesh is empty afterwards.
    pub fn release(&mut self) -> (released: Option<u64>)
        ensures
            old(self).vert_buff.buff != 0 ==> released == Some(old(self).vert_buff.buff),
            old(self).vert_buff.buff == 0 ==> released is None,
            final(self).vert_buff == (VertexBuffer { buff: 0, ..old(self).vert_buff }),
    {
        self.vert_buff.release()
    }
}

} // verus!
