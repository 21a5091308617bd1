use vstd::prelude::*;

verus! {

/// A mesh that lives on the graphics card: the id of its vertex array object
/// and the number of vertices (or indices) that a draw call renders.
#[derive(Debug, Clone, Copy, PartialEq, Eq, Hash)]
pub struct RawModel {
    pub vao_id: u32,
    pub vertex_count: i32,
}

impl RawModel {
    pub fn new(vao_id: u32, vertex_count: i32) -> (r: RawModel)
        ensures
            r.vao_id == vao_id,
            r.vertex_count == vertex_count,
    {
        RawModel { vao_id, vertex_count }
    }

    pub fn get_vao_id(&self) -> (r: u32)
        ensures
            r == self.vao_id,
    {
        self.vao_id
    }

    pub fn get_vertex_count(&self) -> (r: i32)
        ensures
            r == self.vertex_count,
    {
        self.vertex_count
    }
}

} // verus!
