//! The meshlet mesh asset: immutable geometry arrays created once at
//! asset-import time, and their byte-level serialization for GPU upload.
//!
//! GPU-facing numeric fields such as bounding-sphere centres and radii are
//! carried as 32-bit words (the IEEE-754 bit patterns the shaders read); the
//! allocator never interprets them, it only moves the bytes.

use vstd::prelude::*;

verus! {

/// Byte stride of one serialized [`Meshlet`] descriptor record: four 32-bit
/// words. Descriptor byte ranges convert to element ranges by this stride.
pub const MESHLET_STRIDE: usize = 16;

/// Byte stride of one serialized [`MeshletBoundingSphere`] record.
pub const BOUNDING_SPHERE_STRIDE: usize = 16;

/// Byte stride of one serialized [`MeshletBoundingCone`] record.
pub const BOUNDING_CONE_STRIDE: usize = 24;

/// One meshlet descriptor: where the meshlet's local vertex list and local
/// triangle list begin inside the shared index buffers, and how long they are.
#[derive(Clone, Copy, PartialEq, Eq, Structural, Debug)]
pub struct Meshlet {
    pub start_vertex_id: u32,
    pub start_index_id: u32,
    pub vertex_count: u32,
    pub triangle_count: u32,
}

/// A culling bounding sphere, stored as the bit patterns of three centre
/// coordinates and a radius.
#[derive(Clone, Copy, PartialEq, Eq, Structural, Debug)]
pub struct MeshletBoundingSphere {
    pub center_x: u32,
    pub center_y: u32,
    pub center_z: u32,
    pub radius: u32,
}

/// A culling bounding cone, stored as the bit patterns of an apex and an
/// axis direction.
#[derive(Clone, Copy, PartialEq, Eq, Structural, Debug)]
pub struct MeshletBoundingCone {
    pub apex_x: u32,
    pub apex_y: u32,
    pub apex_z: u32,
    pub axis_x: u32,
    pub axis_y: u32,
    pub axis_z: u32,
}

/// An immutable meshlet mesh asset: the six geometry arrays one imported
/// mesh contributes, one per shared GPU buffer.
pub struct MeshletMesh {
    /// Raw vertex data blob.
    pub vertex_data: Vec<u8>,
    /// Per-meshlet local vertex indices into the vertex data.
    pub meshlet_vertices: Vec<u32>,
    /// Per-meshlet local triangle index bytes.
    pub meshlet_indices: Vec<u8>,
    /// Meshlet descriptor records.
    pub meshlets: Vec<Meshlet>,
    /// One culling bounding sphere per meshlet.
    pub meshlet_bounding_spheres: Vec<MeshletBoundingSphere>,
    /// One culling bounding cone per meshlet.
    pub meshlet_bounding_cones: Vec<MeshletBoundingCone>,
}

/// The four little-endian bytes of a 32-bit word.
pub open spec fn u32_le_bytes(x: u32) -> Seq<u8> {
    seq![
        (x & 0xff) as u8,
        ((x >> 8) & 0xff) as u8,
        ((x >> 16) & 0xff) as u8,
        ((x >> 24) & 0xff) as u8,
    ]
}

/// The serialized form of one meshlet descriptor record.
pub open spec fn meshlet_bytes(m: Meshlet) -> Seq<u8> {
    u32_le_bytes(m.start_vertex_id) + u32_le_bytes(m.start_index_id) + u32_le_bytes(m.vertex_count)
        + u32_le_bytes(m.triangle_count)
}

/// The serialized form of one bounding-sphere record.
pub open spec fn bounding_sphere_bytes(s: MeshletBoundingSphere) -> Seq<u8> {
    u32_le_bytes(s.center_x) + u32_le_bytes(s.center_y) + u32_le_bytes(s.center_z) + u32_le_bytes(
        s.radius,
    )
}

/// The serialized form of one bounding-cone record.
pub open spec fn bounding_cone_bytes(c: MeshletBoundingCone) -> Seq<u8> {
    u32_le_bytes(c.apex_x) + u32_le_bytes(c.apex_y) + u32_le_bytes(c.apex_z) + u32_le_bytes(
        c.axis_x,
    ) + u32_le_bytes(c.axis_y) + u32_le_bytes(c.axis_z)
}

/// The concatenated little-endian bytes of a sequence of 32-bit words.
pub open spec fn u32s_bytes(s: Seq<u32>) -> Seq<u8>
    decreases s.len(),
{
    if s.len() == 0 {
        Seq::empty()
    } else {
        u32s_bytes(s.drop_last()) + u32_le_bytes(s.last())
    }
}

/// The concatenated serialized meshlet descriptor records.
pub open spec fn meshlets_bytes(s: Seq<Meshlet>) -> Seq<u8>
    decreases s.len(),
{
    if s.len() == 0 {
        Seq::empty()
    } else {
        meshlets_bytes(s.drop_last()) + meshlet_bytes(s.last())
    }
}

/// The concatenated serialized bounding-sphere records.
pub open spec fn bounding_spheres_bytes(s: Seq<MeshletBoundingSphere>) -> Seq<u8>
    decreases s.len(),
{
    if s.len() == 0 {
        Seq::empty()
    } else {
        bounding_spheres_bytes(s.drop_last()) + bounding_sphere_bytes(s.last())
    }
}

/// The concatenated serialized bounding-cone records.
pub open spec fn bounding_cones_bytes(s: Seq<MeshletBoundingCone>) -> Seq<u8>
    decreases s.len(),
{
    if s.len() == 0 {
        Seq::empty()
    } else {
        bounding_cones_bytes(s.drop_last()) + bounding_cone_bytes(s.last())
    }
}

pub proof fn lemma_u32s_bytes_len(s: Seq<u32>)
    ensures
        u32s_bytes(s).len() == 4 * s.len(),
    decreases s.len(),
{
    if s.len() > 0 {
        lemma_u32s_bytes_len(s.drop_last());
    }
}

pub proof fn lemma_meshlets_bytes_len(s: Seq<Meshlet>)
    ensures
        meshlets_bytes(s).len() == MESHLET_STRIDE * s.len(),
    decreases s.len(),
{
    if s.len() > 0 {
        lemma_meshlets_bytes_len(s.drop_last());
    }
}

pub proof fn lemma_bounding_spheres_bytes_len(s: Seq<MeshletBoundingSphere>)
    ensures
        bounding_spheres_bytes(s).len() == BOUNDING_SPHERE_STRIDE * s.len(),
    decreases s.len(),
{
    if s.len() > 0 {
        lemma_bounding_spheres_bytes_len(s.drop_last());
    }
}

pub proof fn lemma_bounding_cones_bytes_len(s: Seq<MeshletBoundingCone>)
    ensures
        bounding_cones_bytes(s).len() == BOUNDING_CONE_STRIDE * s.len(),
    decreases s.len(),
{
    if s.len() > 0 {
        lemma_bounding_cones_bytes_len(s.drop_last());
    }
}

/// Appends the four little-endian bytes of `x`.
fn push_u32_le(out: &mut Vec<u8>, x: u32)
    ensures
        final(out)@ == old(out)@ + u32_le_bytes(x),
{
    out.push((x & 0xff) as u8);
    out.push(((x >> 8) & 0xff) as u8);
    out.push(((x >> 16) & 0xff) as u8);
    out.push(((x >> 24) & 0xff) as u8);
    proof {
        assert(out@ =~= old(out)@ + u32_le_bytes(x));
    }
}

/// Serializes 32-bit words to their little-endian bytes.
pub fn serialize_u32s(v: &Vec<u32>) -> (out: Vec<u8>)
    ensures
        out@ == u32s_bytes(v@),
{
    let mut out: Vec<u8> = Vec::new();
    let mut i: usize = 0;
    while i < v.len()
        invariant
            i <= v@.len(),
            out@ == u32s_bytes(v@.take(i as int)),
        decreases v@.len() - i,
    {
        push_u32_le(&mut out, v[i]);
        i += 1;
        proof {
            assert(v@.take(i as int).drop_last() =~= v@.take(i - 1));
            assert(v@.take(i as int).last() == v@[i - 1]);
        }
    }
    proof {
        assert(v@.take(v@.len() as int) =~= v@);
    }
    out
}

/// Serializes meshlet descriptor records; each occupies [`MESHLET_STRIDE`] bytes.
pub fn serialize_meshlets(v: &Vec<Meshlet>) -> (out: Vec<u8>)
    ensures
        out@ == meshlets_bytes(v@),
{
    let mut out: Vec<u8> = Vec::new();
    let mut i: usize = 0;
    while i < v.len()
        invariant
            i <= v@.len(),
            out@ == meshlets_bytes(v@.take(i as int)),
        decreases v@.len() - i,
    {
        let m = v[i];
        push_u32_le(&mut out, m.start_vertex_id);
        push_u32_le(&mut out, m.start_index_id);
        push_u32_le(&mut out, m.vertex_count);
        push_u32_le(&mut out, m.triangle_count);
        i += 1;
        proof {
            assert(v@.take(i as int).drop_last() =~= v@.take(i - 1));
            assert(v@.take(i as int).last() == v@[i - 1]);
            assert(out@ =~= meshlets_bytes(v@.take(i - 1)) + meshlet_bytes(v@[i - 1]));
        }
    }
    proof {
        assert(v@.take(v@.len() as int) =~= v@);
    }
    out
}

/// Serializes bounding-sphere records; each occupies [`BOUNDING_SPHERE_STRIDE`] bytes.
pub fn serialize_bounding_spheres(v: &Vec<MeshletBoundingSphere>) -> (out: Vec<u8>)
    ensures
        out@ == bounding_spheres_bytes(v@),
{
    let mut out: Vec<u8> = Vec::new();
    let mut i: usize = 0;
    while i < v.len()
        invariant
            i <= v@.len(),
            out@ == bounding_spheres_bytes(v@.take(i as int)),
        decreases v@.len() - i,
    {
        let s = v[i];
        push_u32_le(&mut out, s.center_x);
        push_u32_le(&mut out, s.center_y);
        push_u32_le(&mut out, s.center_z);
        push_u32_le(&mut out, s.radius);
        i += 1;
        proof {
            assert(v@.take(i as int).drop_last() =~= v@.take(i - 1));
            assert(v@.take(i as int).last() == v@[i - 1]);
            assert(out@ =~= bounding_spheres_bytes(v@.take(i - 1)) + bounding_sphere_bytes(
                v@[i - 1],
            ));
        }
    }
    proof {
        assert(v@.take(v@.len() as int) =~= v@);
    }
    out
}

/// Serializes bounding-cone records; each occupies [`BOUNDING_CONE_STRIDE`] bytes.
pub fn serialize_bounding_cones(v: &Vec<MeshletBoundingCone>) -> (out: Vec<u8>)
    ensures
        out@ == bounding_cones_bytes(v@),
{
    let mut out: Vec<u8> = Vec::new();
    let mut i: usize = 0;
    while i < v.len()
        invariant
            i <= v@.len(),
            out@ == bounding_cones_bytes(v@.take(i as int)),
        decreases v@.len() - i,
    {
        let c = v[i];
        push_u32_le(&mut out, c.apex_x);
        push_u32_le(&mut out, c.apex_y);
        push_u32_le(&mut out, c.apex_z);
        push_u32_le(&mut out, c.axis_x);
        push_u32_le(&mut out, c.axis_y);
        push_u32_le(&mut out, c.axis_z);
        i += 1;
        proof {
            assert(v@.take(i as int).drop_last() =~= v@.take(i - 1));
            assert(v@.take(i as int).last() == v@[i - 1]);
            assert(out@ =~= bounding_cones_bytes(v@.take(i - 1)) + bounding_cone_bytes(v@[i - 1]));
        }
    }
    proof {
        assert(v@.take(v@.len() as int) =~= v@);
    }
    out
}

/// Copies a byte array payload unchanged.
pub fn copy_bytes(v: &Vec<u8>) -> (out: Vec<u8>)
    ensures
        out@ == v@,
{
    let mut out: Vec<u8> = Vec::new();
    let mut i: usize = 0;
    while i < v.len()
        invariant
            i <= v@.len(),
            out@ == v@.take(i as int),
        decreases v@.len() - i,
    {
        out.push(v[i]);
        i += 1;
        proof {
            assert(out@ =~= v@.take(i as int));
        }
    }
    proof {
        assert(v@.take(v@.len() as int) =~= v@);
    }
    out
}

} // verus!
