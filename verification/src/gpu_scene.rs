//! The GPU scene: six persistent buffers holding every uploaded meshlet
//! mesh, a dedup map from asset identity to recorded slice, and the
//! per-frame upload/flush protocol.

use vstd::prelude::*;
use std::collections::HashMap;
use crate::asset::BOUNDING_CONE_STRIDE;
use crate::asset::BOUNDING_SPHERE_STRIDE;
use crate::asset::MESHLET_STRIDE;
use crate::asset::MeshletMesh;
use crate::asset::bounding_cones_bytes;
use crate::asset::bounding_spheres_bytes;
use crate::asset::copy_bytes;
use crate::asset::lemma_bounding_cones_bytes_len;
use crate::asset::lemma_bounding_spheres_bytes_len;
use crate::asset::lemma_meshlets_bytes_len;
use crate::asset::lemma_u32s_bytes_len;
use crate::asset::meshlets_bytes;
use crate::asset::serialize_bounding_cones;
use crate::asset::serialize_bounding_spheres;
use crate::asset::serialize_meshlets;
use crate::asset::serialize_u32s;
use crate::asset::u32s_bytes;
use crate::persistent_buffer::PersistentGpuBuffer;
use crate::persistent_buffer::PersistentGpuBufferView;
use crate::persistent_buffer::flush_transition;
use crate::persistent_buffer::queue_write_spec;

verus! {

broadcast use vstd::std_specs::hash::group_hash_axioms;

/// The element (meshlet descriptor) range one asset occupies in the shared
/// descriptor buffer, attached per entity as a drawable annotation.
#[derive(Clone, Copy, PartialEq, Eq, Structural, Debug)]
pub struct MeshletMeshGpuSceneSlice {
    pub start: usize,
    pub end: usize,
}

/// A recoverable failure of the upload protocol.
#[derive(Clone, Copy, PartialEq, Eq, Structural, Debug)]
pub enum MeshletSceneError {
    /// The asset behind a handle has not finished loading; the caller should
    /// defer the entity to a later frame and retry.
    AssetNotLoaded,
}

/// Snapshot of the six backing buffers' reallocation generations. A bind
/// group bakes the snapshot current at build time; once any generation
/// moves on, the bind group is stale and must be rebuilt.
#[derive(Clone, Copy, PartialEq, Eq, Structural, Debug)]
pub struct BufferGenerations {
    pub vertex_data: u64,
    pub meshlet_vertices: u64,
    pub meshlet_indices: u64,
    pub meshlets: u64,
    pub meshlet_bounding_spheres: u64,
    pub meshlet_bounding_cones: u64,
}

/// The state of a [`MeshletGpuScene`] as specifications see it.
#[verifier::ext_equal]
pub ghost struct MeshletGpuSceneView {
    pub vertex_data: PersistentGpuBufferView,
    pub meshlet_vertices: PersistentGpuBufferView,
    pub meshlet_indices: PersistentGpuBufferView,
    pub meshlets: PersistentGpuBufferView,
    pub meshlet_bounding_spheres: PersistentGpuBufferView,
    pub meshlet_bounding_cones: PersistentGpuBufferView,
    pub slices: Map<u64, MeshletMeshGpuSceneSlice>,
}

impl MeshletGpuSceneView {
    /// All six buffers are well-formed, and the descriptor buffer's cursor
    /// stays aligned to the descriptor record stride, so byte ranges convert
    /// exactly to element ranges.
    pub open spec fn wf(self) -> bool {
        &&& self.vertex_data.wf()
        &&& self.meshlet_vertices.wf()
        &&& self.meshlet_indices.wf()
        &&& self.meshlets.wf()
        &&& self.meshlet_bounding_spheres.wf()
        &&& self.meshlet_bounding_cones.wf()
        &&& self.meshlets.size % (MESHLET_STRIDE as nat) == 0
    }

    /// The view of a freshly created scene.
    pub open spec fn empty() -> MeshletGpuSceneView {
        MeshletGpuSceneView {
            vertex_data: PersistentGpuBufferView::empty(),
            meshlet_vertices: PersistentGpuBufferView::empty(),
            meshlet_indices: PersistentGpuBufferView::empty(),
            meshlets: PersistentGpuBufferView::empty(),
            meshlet_bounding_spheres: PersistentGpuBufferView::empty(),
            meshlet_bounding_cones: PersistentGpuBufferView::empty(),
            slices: Map::empty(),
        }
    }

    /// Machine limit: queueing this mesh must not run any buffer's logical
    /// length past the address space.
    pub open spec fn can_queue(self, mesh: MeshletMesh) -> bool {
        &&& self.vertex_data.size + mesh.vertex_data@.len() <= usize::MAX
        &&& self.meshlet_vertices.size + 4 * mesh.meshlet_vertices@.len() <= usize::MAX
        &&& self.meshlet_indices.size + mesh.meshlet_indices@.len() <= usize::MAX
        &&& self.meshlets.size + MESHLET_STRIDE * mesh.meshlets@.len() <= usize::MAX
        &&& self.meshlet_bounding_spheres.size + BOUNDING_SPHERE_STRIDE
            * mesh.meshlet_bounding_spheres@.len() <= usize::MAX
        &&& self.meshlet_bounding_cones.size + BOUNDING_CONE_STRIDE
            * mesh.meshlet_bounding_cones@.len() <= usize::MAX
    }
}

/// What a first-seen upload does to the scene: each of the six buffers
/// queues exactly the serialized payload the mesh contributes to it, and the
/// descriptor buffer's byte range — converted to an element range by the
/// record stride — is recorded for the asset identity.
pub open spec fn upload_transition(
    pre: MeshletGpuSceneView,
    asset_id: u64,
    mesh: MeshletMesh,
    post: MeshletGpuSceneView,
    r: MeshletMeshGpuSceneSlice,
) -> bool {
    &&& post.vertex_data == queue_write_spec(pre.vertex_data, mesh.vertex_data@)
    &&& post.meshlet_vertices == queue_write_spec(
        pre.meshlet_vertices,
        u32s_bytes(mesh.meshlet_vertices@),
    )
    &&& post.meshlet_indices == queue_write_spec(pre.meshlet_indices, mesh.meshlet_indices@)
    &&& post.meshlets == queue_write_spec(pre.meshlets, meshlets_bytes(mesh.meshlets@))
    &&& post.meshlet_bounding_spheres == queue_write_spec(
        pre.meshlet_bounding_spheres,
        bounding_spheres_bytes(mesh.meshlet_bounding_spheres@),
    )
    &&& post.meshlet_bounding_cones == queue_write_spec(
        pre.meshlet_bounding_cones,
        bounding_cones_bytes(mesh.meshlet_bounding_cones@),
    )
    &&& r.start * MESHLET_STRIDE == pre.meshlets.size
    &&& r.end == r.start + mesh.meshlets@.len()
    &&& post.slices == pre.slices.insert(asset_id, r)
}

/// What one whole flush does to the scene: every buffer undergoes its flush
/// transition and the recorded slices stay as they are.
pub open spec fn flush_all_transition(
    pre: MeshletGpuSceneView,
    post: MeshletGpuSceneView,
) -> bool {
    &&& flush_transition(pre.vertex_data, post.vertex_data)
    &&& flush_transition(pre.meshlet_vertices, post.meshlet_vertices)
    &&& flush_transition(pre.meshlet_indices, post.meshlet_indices)
    &&& flush_transition(pre.meshlets, post.meshlets)
    &&& flush_transition(pre.meshlet_bounding_spheres, post.meshlet_bounding_spheres)
    &&& flush_transition(pre.meshlet_bounding_cones, post.meshlet_bounding_cones)
    &&& post.slices == pre.slices
}

/// The renderer-global meshlet scene: six persistent GPU buffers and the
/// dedup map keyed by asset identity.
pub struct MeshletGpuScene {
    vertex_data: PersistentGpuBuffer,
    meshlet_vertices: PersistentGpuBuffer,
    meshlet_indices: PersistentGpuBuffer,
    meshlets: PersistentGpuBuffer,
    meshlet_bounding_spheres: PersistentGpuBuffer,
    meshlet_bounding_cones: PersistentGpuBuffer,
    meshlet_mesh_slices: HashMap<u64, MeshletMeshGpuSceneSlice>,
}

impl View for MeshletGpuScene {
    type V = MeshletGpuSceneView;

    closed spec fn view(&self) -> MeshletGpuSceneView {
        MeshletGpuSceneView {
            vertex_data: self.vertex_data@,
            meshlet_vertices: self.meshlet_vertices@,
            meshlet_indices: self.meshlet_indices@,
            meshlets: self.meshlets@,
            meshlet_bounding_spheres: self.meshlet_bounding_spheres@,
            meshlet_bounding_cones: self.meshlet_bounding_cones@,
            slices: self.meshlet_mesh_slices@,
        }
    }
}

impl MeshletGpuScene {
    /// An empty scene: six empty buffers and no recorded slices.
    pub fn new() -> (s: MeshletGpuScene)
        ensures
            s@.wf(),
            s@ == MeshletGpuSceneView::empty(),
    {
        let s = MeshletGpuScene {
            vertex_data: PersistentGpuBuffer::new(),
            meshlet_vertices: PersistentGpuBuffer::new(),
            meshlet_indices: PersistentGpuBuffer::new(),
            meshlets: PersistentGpuBuffer::new(),
            meshlet_bounding_spheres: PersistentGpuBuffer::new(),
            meshlet_bounding_cones: PersistentGpuBuffer::new(),
            meshlet_mesh_slices: HashMap::new(),
        };
        proof {
            assert(s@ =~= MeshletGpuSceneView::empty());
        }
        s
    }

    /// Queues one meshlet mesh for upload, deduplicated by asset identity.
    ///
    /// A dedup hit returns a copy of the recorded slice without touching any
    /// buffer; the mesh is not even needed then. A first-seen identity whose
    /// asset is not loaded yet reports [`MeshletSceneError::AssetNotLoaded`]
    /// and changes nothing, so the caller can retry in a later frame. A
    /// first-seen identity with a loaded asset queues all six payloads and
    /// records the descriptor element range under the identity.
    pub fn queue_meshlet_mesh_upload(
        &mut self,
        asset_id: u64,
        mesh: Option<&MeshletMesh>,
    ) -> (r: Result<MeshletMeshGpuSceneSlice, MeshletSceneError>)
        requires
            old(self)@.wf(),
            (!old(self)@.slices.contains_key(asset_id) && mesh is Some) ==> old(self)@.can_queue(
                *mesh.unwrap(),
            ),
        ensures
            final(self)@.wf(),
            old(self)@.slices.contains_key(asset_id) ==> {
                &&& r == Ok::<MeshletMeshGpuSceneSlice, MeshletSceneError>(
                    old(self)@.slices[asset_id],
                )
                &&& final(self)@ == old(self)@
            },
            (!old(self)@.slices.contains_key(asset_id) && mesh is None) ==> {
                &&& r == Err::<MeshletMeshGpuSceneSlice, MeshletSceneError>(
                    MeshletSceneError::AssetNotLoaded,
                )
                &&& final(self)@ == old(self)@
            },
            (!old(self)@.slices.contains_key(asset_id) && mesh is Some) ==> {
                &&& r is Ok
                &&& upload_transition(
                    old(self)@,
                    asset_id,
                    *mesh.unwrap(),
                    final(self)@,
                    r.unwrap(),
                )
            },
    {
        let ghost pre = self@;
        match self.meshlet_mesh_slices.get(&asset_id) {
            Some(slice) => Ok(*slice),
            None => match mesh {
                None => Err(MeshletSceneError::AssetNotLoaded),
                Some(m) => {
                    proof {
                        lemma_u32s_bytes_len(m.meshlet_vertices@);
                        lemma_meshlets_bytes_len(m.meshlets@);
                        lemma_bounding_spheres_bytes_len(m.meshlet_bounding_spheres@);
                        lemma_bounding_cones_bytes_len(m.meshlet_bounding_cones@);
                    }
                    let vertex_payload = copy_bytes(&m.vertex_data);
                    self.vertex_data.queue_write(vertex_payload);
                    let vertices_payload = serialize_u32s(&m.meshlet_vertices);
                    self.meshlet_vertices.queue_write(vertices_payload);
                    let indices_payload = copy_bytes(&m.meshlet_indices);
                    self.meshlet_indices.queue_write(indices_payload);
                    let meshlets_payload = serialize_meshlets(&m.meshlets);
                    let byte_slice = self.meshlets.queue_write(meshlets_payload);
                    let spheres_payload = serialize_bounding_spheres(&m.meshlet_bounding_spheres);
                    self.meshlet_bounding_spheres.queue_write(spheres_payload);
                    let cones_payload = serialize_bounding_cones(&m.meshlet_bounding_cones);
                    self.meshlet_bounding_cones.queue_write(cones_payload);
                    proof {
                        vstd::arithmetic::div_mod::lemma_fundamental_div_mod(
                            byte_slice.start as int,
                            MESHLET_STRIDE as int,
                        );
                    }
                    let start = byte_slice.start / MESHLET_STRIDE;
                    proof {
                        assert(MESHLET_STRIDE * (start as int + m.meshlets@.len())
                            <= usize::MAX as int);
                        assert(start as int + m.meshlets@.len() <= usize::MAX as int);
                    }
                    let slice = MeshletMeshGpuSceneSlice { start, end: start + m.meshlets.len() };
                    self.meshlet_mesh_slices.insert(asset_id, slice);
                    proof {
                        vstd::arithmetic::div_mod::lemma_mod_multiples_vanish(
                            m.meshlets@.len() as int,
                            pre.meshlets.size as int,
                            MESHLET_STRIDE as int,
                        );
                        assert(final(self)@.slices =~= pre.slices.insert(asset_id, slice));
                    }
                    Ok(slice)
                },
            },
        }
    }

    /// Snapshot of the six backing buffers' reallocation generations.
    pub fn buffer_generations(&self) -> (g: BufferGenerations)
        ensures
            g.vertex_data == self@.vertex_data.buffer.generation,
            g.meshlet_vertices == self@.meshlet_vertices.buffer.generation,
            g.meshlet_indices == self@.meshlet_indices.buffer.generation,
            g.meshlets == self@.meshlets.buffer.generation,
            g.meshlet_bounding_spheres == self@.meshlet_bounding_spheres.buffer.generation,
            g.meshlet_bounding_cones == self@.meshlet_bounding_cones.buffer.generation,
    {
        BufferGenerations {
            vertex_data: self.vertex_data.generation(),
            meshlet_vertices: self.meshlet_vertices.generation(),
            meshlet_indices: self.meshlet_indices.generation(),
            meshlets: self.meshlets.generation(),
            meshlet_bounding_spheres: self.meshlet_bounding_spheres.generation(),
            meshlet_bounding_cones: self.meshlet_bounding_cones.generation(),
        }
    }

    /// Whether a bind group built against the `baked` generation snapshot is
    /// stale: some backing buffer has been reallocated since the bind group
    /// was built, so it references a dead allocation and must be rebuilt.
    pub fn bind_group_stale(&self, baked: &BufferGenerations) -> (r: bool)
        ensures
            r == {
                ||| baked.vertex_data != self@.vertex_data.buffer.generation
                ||| baked.meshlet_vertices != self@.meshlet_vertices.buffer.generation
                ||| baked.meshlet_indices != self@.meshlet_indices.buffer.generation
                ||| baked.meshlets != self@.meshlets.buffer.generation
                ||| baked.meshlet_bounding_spheres
                    != self@.meshlet_bounding_spheres.buffer.generation
                ||| baked.meshlet_bounding_cones != self@.meshlet_bounding_cones.buffer.generation
            },
    {
        baked.vertex_data != self.vertex_data.generation() || baked.meshlet_vertices
            != self.meshlet_vertices.generation() || baked.meshlet_indices
            != self.meshlet_indices.generation() || baked.meshlets != self.meshlets.generation()
            || baked.meshlet_bounding_spheres != self.meshlet_bounding_spheres.generation()
            || baked.meshlet_bounding_cones != self.meshlet_bounding_cones.generation()
    }

    /// The vertex data blob buffer.
    pub fn vertex_data_buffer(&self) -> (b: &PersistentGpuBuffer)
        ensures
            b@ == self@.vertex_data,
    {
        &self.vertex_data
    }

    /// The meshlet-local vertex index buffer.
    pub fn meshlet_vertices_buffer(&self) -> (b: &PersistentGpuBuffer)
        ensures
            b@ == self@.meshlet_vertices,
    {
        &self.meshlet_vertices
    }

    /// The meshlet-local triangle index buffer.
    pub fn meshlet_indices_buffer(&self) -> (b: &PersistentGpuBuffer)
        ensures
            b@ == self@.meshlet_indices,
    {
        &self.meshlet_indices
    }

    /// The meshlet descriptor buffer.
    pub fn meshlets_buffer(&self) -> (b: &PersistentGpuBuffer)
        ensures
            b@ == self@.meshlets,
    {
        &self.meshlets
    }

    /// The bounding sphere buffer.
    pub fn meshlet_bounding_spheres_buffer(&self) -> (b: &PersistentGpuBuffer)
        ensures
            b@ == self@.meshlet_bounding_spheres,
    {
        &self.meshlet_bounding_spheres
    }

    /// The bounding cone buffer.
    pub fn meshlet_bounding_cones_buffer(&self) -> (b: &PersistentGpuBuffer)
        ensures
            b@ == self@.meshlet_bounding_cones,
    {
        &self.meshlet_bounding_cones
    }
}

/// Flushes all six buffers, in the fixed order vertex data, local vertex
/// indices, local triangle indices, descriptors, bounding spheres, bounding
/// cones. Must run before any draw of the current frame reads the buffers;
/// afterwards every previously returned range is valid to read back.
pub fn perform_pending_meshlet_mesh_writes(gpu_scene: &mut MeshletGpuScene)
    requires
        old(gpu_scene)@.wf(),
    ensures
        final(gpu_scene)@.wf(),
        flush_all_transition(old(gpu_scene)@, final(gpu_scene)@),
{
    gpu_scene.vertex_data.perform_writes();
    gpu_scene.meshlet_vertices.perform_writes();
    gpu_scene.meshlet_indices.perform_writes();
    gpu_scene.meshlets.perform_writes();
    gpu_scene.meshlet_bounding_spheres.perform_writes();
    gpu_scene.meshlet_bounding_cones.perform_writes();
}

/// Law (dedup): a first-seen upload records its returned slice under the
/// asset identity, so every later queue of the same identity takes the
/// contract's hit path: it returns this very slice and changes nothing —
/// the loader work runs exactly once per identity.
pub proof fn lemma_upload_recorded(
    pre: MeshletGpuSceneView,
    asset_id: u64,
    mesh: MeshletMesh,
    post: MeshletGpuSceneView,
    r: MeshletMeshGpuSceneSlice,
)
    requires
        upload_transition(pre, asset_id, mesh, post, r),
    ensures
        post.slices.contains_key(asset_id),
        post.slices[asset_id] == r,
{
}

/// Law (dedup across flushes): an uploaded identity stays recorded over any
/// flush, so re-queuing it after `perform_pending_meshlet_mesh_writes` is
/// still a hit and appends no bytes: every buffer's logical length is
/// exactly what the flush left behind.
pub proof fn lemma_requeue_after_flush_is_hit(
    pre: MeshletGpuSceneView,
    asset_id: u64,
    mesh: MeshletMesh,
    mid: MeshletGpuSceneView,
    post: MeshletGpuSceneView,
    r: MeshletMeshGpuSceneSlice,
)
    requires
        upload_transition(pre, asset_id, mesh, mid, r),
        flush_all_transition(mid, post),
    ensures
        post.slices.contains_key(asset_id),
        post.slices[asset_id] == r,
        post.meshlets.size == mid.meshlets.size,
        post.vertex_data.size == mid.vertex_data.size,
{
}

} // verus!
