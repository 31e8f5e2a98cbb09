//! The fixed mesh every agent instance shares: four vertices forming two
//! triangles. The vertex positions are floating-point data owned by the
//! render layer; this core owns the index buffer and the counts the draw
//! call uses.

use vstd::prelude::*;

verus! {

/// Vertices of the shared per-agent mesh.
pub const MESH_VERTEX_COUNT: u16 = 4;

/// Indices of the shared per-agent mesh: two triangles.
pub const MESH_INDEX_COUNT: u32 = 6;

/// The index buffer of the shared mesh, listing both triangles. Every index
/// addresses one of the four mesh vertices.
pub fn triangle_indices() -> (v: Vec<u16>)
    ensures
        v@ == seq![0u16, 1u16, 2u16, 2u16, 3u16, 0u16],
        v@.len() == MESH_INDEX_COUNT,
        forall|i: int| 0 <= i < v@.len() ==> v@[i] < MESH_VERTEX_COUNT,
{
    let mut v: Vec<u16> = Vec::new();
    v.push(0);
    v.push(1);
    v.push(2);
    v.push(2);
    v.push(3);
    v.push(0);
    proof {
        assert(v@ =~= seq![0u16, 1u16, 2u16, 2u16, 3u16, 0u16]);
    }
    v
}

} // verus!
