//! The fixed-layout output vertex and its construction rule.
//!
//! The pipeline is 2D-only: every produced vertex lies in the z = 0 plane,
//! faces the camera, and carries no texture mapping.  Scalar components are
//! carried as IEEE-754 single-precision bit patterns (`u32`), which makes the
//! construction rule an exact, total function.

use vstd::prelude::*;

verus! {

/// Bit pattern of the single-precision value 0.0.
pub const ZERO_BITS: u32 = 0;

/// Bit pattern of the single-precision value 1.0.
pub const ONE_BITS: u32 = 0x3F80_0000;

/// Three scalar components, each an IEEE-754 single-precision bit pattern.
#[derive(Debug, Clone, Copy, PartialEq, Eq, Structural)]
pub struct Vec3Bits {
    pub x: u32,
    pub y: u32,
    pub z: u32,
}

/// Two scalar components, each an IEEE-754 single-precision bit pattern.
#[derive(Debug, Clone, Copy, PartialEq, Eq, Structural)]
pub struct Vec2Bits {
    pub x: u32,
    pub y: u32,
}

/// A vertex with all the attributes of the final mesh: position, normal and
/// texture coordinates.  Equality is structural.
#[derive(Debug, Clone, Copy, PartialEq, Eq, Structural)]
pub struct Vertex {
    pub position: Vec3Bits,
    pub normal: Vec3Bits,
    pub uv: Vec2Bits,
}

/// The construction rule: the vertex derived from a tessellated 2D point,
/// whatever engine produced the point.  Position is the point lifted into the
/// z = 0 plane, the normal is (0, 0, 1), and the texture coordinates are
/// (0, 0).
pub open spec fn constructed_vertex(x_bits: u32, y_bits: u32) -> Vertex {
    Vertex {
        position: Vec3Bits { x: x_bits, y: y_bits, z: ZERO_BITS },
        normal: Vec3Bits { x: ZERO_BITS, y: ZERO_BITS, z: ONE_BITS },
        uv: Vec2Bits { x: ZERO_BITS, y: ZERO_BITS },
    }
}

/// A vertex is well formed when it could have come out of the construction
/// rule: flat, camera-facing, untextured.
pub open spec fn vertex_wf(v: Vertex) -> bool {
    v == constructed_vertex(v.position.x, v.position.y)
}

/// Zero-sized, stateless vertex constructor shared by the fill and the stroke
/// engines: both hand it the raw tessellated point and get the same vertex.
#[derive(Debug, Clone, Copy, PartialEq, Eq, Structural)]
pub struct VertexConstructor;

impl VertexConstructor {
    /// Builds the one vertex that corresponds to a tessellated point.
    pub fn new_vertex(&self, x_bits: u32, y_bits: u32) -> (v: Vertex)
        ensures
            v == constructed_vertex(x_bits, y_bits),
    {
        Vertex {
            position: Vec3Bits { x: x_bits, y: y_bits, z: ZERO_BITS },
            normal: Vec3Bits { x: ZERO_BITS, y: ZERO_BITS, z: ONE_BITS },
            uv: Vec2Bits { x: ZERO_BITS, y: ZERO_BITS },
        }
    }
}

/// Law: vertex construction is deterministic and mode-agnostic.  For any
/// point, the vertex built at the fill call site and the vertex built at the
/// stroke call site are one and the same value, with position (x, y, 0),
/// normal (0, 0, 1) and texture coordinates (0, 0).
pub proof fn lemma_vertex_construction_deterministic(x_bits: u32, y_bits: u32)
    ensures
        constructed_vertex(x_bits, y_bits).position == (Vec3Bits {
            x: x_bits,
            y: y_bits,
            z: ZERO_BITS,
        }),
        constructed_vertex(x_bits, y_bits).normal == (Vec3Bits {
            x: ZERO_BITS,
            y: ZERO_BITS,
            z: ONE_BITS,
        }),
        constructed_vertex(x_bits, y_bits).uv == (Vec2Bits { x: ZERO_BITS, y: ZERO_BITS }),
        vertex_wf(constructed_vertex(x_bits, y_bits)),
{
}

} // verus!
