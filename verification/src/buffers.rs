//! The raw output of one tessellation call: a vertex sequence plus a
//! triangle-list index sequence.

use crate::vertex::{vertex_wf, Vertex};
use vstd::prelude::*;

verus! {

/// A fresh vertex/index buffer pair, produced by one tessellation call and
/// consumed by mesh assembly.  Indices reference positions in `vertices` and
/// come in triples, each triple one triangle.
#[derive(Debug, PartialEq)]
pub struct VertexBuffers {
    pub vertices: Vec<Vertex>,
    pub indices: Vec<u32>,
}

/// Well-formed buffers: the index count is a multiple of three (a triangle
/// list), every index lands inside the vertex sequence, and every vertex obeys
/// the construction rule.
pub open spec fn buffers_wf(b: VertexBuffers) -> bool {
    &&& b.indices@.len() % 3 == 0
    &&& forall|i: int| 0 <= i < b.indices@.len() ==> (b.indices@[i] as int) < b.vertices@.len()
    &&& forall|i: int| 0 <= i < b.vertices@.len() ==> vertex_wf(b.vertices@[i])
}

impl VertexBuffers {
    /// An empty buffer pair.
    pub fn new() -> (b: VertexBuffers)
        ensures
            b.vertices@.len() == 0,
            b.indices@.len() == 0,
            buffers_wf(b),
    {
        VertexBuffers { vertices: Vec::new(), indices: Vec::new() }
    }
}

} // verus!
