//! Mesh assembly: turning a raw vertex/index buffer pair into the
//! engine-agnostic mesh record.

use crate::buffers::{buffers_wf, VertexBuffers};
use crate::vertex::{Vec2Bits, Vec3Bits, ONE_BITS, ZERO_BITS};
use vstd::prelude::*;

verus! {

/// How the index array of a mesh is to be read.  This pipeline only ever
/// emits triangle lists.
#[derive(Debug, Clone, Copy, PartialEq, Eq, Structural)]
pub enum Topology {
    TriangleList,
}

/// The engine-ready mesh record: one index array and three parallel
/// per-vertex attribute arrays whose ordering matches the vertex sequence the
/// buffers held.
#[derive(Debug, PartialEq)]
pub struct Mesh {
    pub topology: Topology,
    pub indices: Vec<u32>,
    pub positions: Vec<Vec3Bits>,
    pub normals: Vec<Vec3Bits>,
    pub uvs: Vec<Vec2Bits>,
}

/// The assembly contract: `m` is exactly the mesh record for `b`.  The index
/// sequence is copied verbatim and each attribute array is the projection of
/// the vertex sequence onto one attribute, order preserved.
pub open spec fn mesh_matches_buffers(m: Mesh, b: VertexBuffers) -> bool {
    &&& m.topology == Topology::TriangleList
    &&& m.indices@ == b.indices@
    &&& m.positions@.len() == b.vertices@.len()
    &&& m.normals@.len() == b.vertices@.len()
    &&& m.uvs@.len() == b.vertices@.len()
    &&& forall|i: int| 0 <= i < b.vertices@.len() ==> m.positions@[i] == b.vertices@[i].position
    &&& forall|i: int| 0 <= i < b.vertices@.len() ==> m.normals@[i] == b.vertices@[i].normal
    &&& forall|i: int| 0 <= i < b.vertices@.len() ==> m.uvs@[i] == b.vertices@[i].uv
}

/// A well-formed mesh: a triangle list whose attribute arrays are parallel,
/// whose indices all land inside them, and whose geometry is flat,
/// camera-facing and untextured.
pub open spec fn mesh_wf(m: Mesh) -> bool {
    &&& m.topology == Topology::TriangleList
    &&& m.indices@.len() % 3 == 0
    &&& m.normals@.len() == m.positions@.len()
    &&& m.uvs@.len() == m.positions@.len()
    &&& forall|i: int| 0 <= i < m.indices@.len() ==> (m.indices@[i] as int) < m.positions@.len()
    &&& forall|i: int| 0 <= i < m.positions@.len() ==> m.positions@[i].z == ZERO_BITS
    &&& forall|i: int|
        0 <= i < m.normals@.len() ==> m.normals@[i] == (Vec3Bits {
            x: ZERO_BITS,
            y: ZERO_BITS,
            z: ONE_BITS,
        })
    &&& forall|i: int|
        0 <= i < m.uvs@.len() ==> m.uvs@[i] == (Vec2Bits { x: ZERO_BITS, y: ZERO_BITS })
}

/// Assembles the mesh record for a buffer pair.  Pure and total: any buffer
/// pair, the empty one included, yields its mesh.
pub fn build_mesh(buffers: &VertexBuffers) -> (m: Mesh)
    ensures
        mesh_matches_buffers(m, *buffers),
{
    let mut indices: Vec<u32> = Vec::new();
    let mut positions: Vec<Vec3Bits> = Vec::new();
    let mut normals: Vec<Vec3Bits> = Vec::new();
    let mut uvs: Vec<Vec2Bits> = Vec::new();

    let index_count = buffers.indices.len();
    let mut i: usize = 0;
    while i < index_count
        invariant
            i <= index_count,
            index_count == buffers.indices@.len(),
            indices@.len() == i,
            forall|j: int| 0 <= j < i ==> indices@[j] == buffers.indices@[j],
        decreases index_count - i,
    {
        indices.push(buffers.indices[i]);
        i += 1;
    }

    let vertex_count = buffers.vertices.len();
    let mut k: usize = 0;
    while k < vertex_count
        invariant
            k <= vertex_count,
            vertex_count == buffers.vertices@.len(),
            positions@.len() == k,
            normals@.len() == k,
            uvs@.len() == k,
            forall|j: int| 0 <= j < k ==> positions@[j] == buffers.vertices@[j].position,
            forall|j: int| 0 <= j < k ==> normals@[j] == buffers.vertices@[j].normal,
            forall|j: int| 0 <= j < k ==> uvs@[j] == buffers.vertices@[j].uv,
        decreases vertex_count - k,
    {
        let v = buffers.vertices[k];
        positions.push(v.position);
        normals.push(v.normal);
        uvs.push(v.uv);
        k += 1;
    }

    proof {
        assert(indices@ =~= buffers.indices@);
    }
    Mesh { topology: Topology::TriangleList, indices, positions, normals, uvs }
}

/// Shared storage of finished meshes.  The pass registers each assembled mesh
/// here and hands the entity the handle (the index) under which it was
/// registered; entries, once added, are never changed or removed.
#[derive(Debug)]
pub struct MeshStorage {
    meshes: Vec<Mesh>,
}

impl View for MeshStorage {
    type V = Seq<Mesh>;

    closed spec fn view(&self) -> Seq<Mesh> {
        self.meshes@
    }
}

impl MeshStorage {
    /// An empty store.
    pub fn new() -> (s: MeshStorage)
        ensures
            s@ == Seq::<Mesh>::empty(),
    {
        MeshStorage { meshes: Vec::new() }
    }

    /// Registers a mesh and returns its handle.
    pub fn add(&mut self, mesh: Mesh) -> (h: usize)
        ensures
            final(self)@ == old(self)@.push(mesh),
            h as int == old(self)@.len(),
    {
        let h = self.meshes.len();
        self.meshes.push(mesh);
        h
    }

    /// How many meshes have been registered.
    pub fn len(&self) -> (n: usize)
        ensures
            n as int == self@.len(),
    {
        self.meshes.len()
    }

    /// The mesh a handle refers to.
    pub fn get(&self, h: usize) -> (m: &Mesh)
        requires
            (h as int) < self@.len(),
        ensures
            *m == self@[h as int],
    {
        &self.meshes[h]
    }
}

/// Law: assembling well-formed buffers gives a well-formed mesh — index
/// validity and the triangle-list shape survive assembly, and the flat,
/// camera-facing vertex invariant carries into the attribute arrays.
pub proof fn lemma_build_mesh_preserves_wf(m: Mesh, b: VertexBuffers)
    requires
        mesh_matches_buffers(m, b),
        buffers_wf(b),
    ensures
        mesh_wf(m),
{
}

} // verus!
