//! A persistent, append-mostly GPU-buffer allocator for meshlet geometry.
//!
//! The core of the crate is [`gpu_scene::MeshletGpuScene`]: it owns six
//! [`persistent_buffer::PersistentGpuBuffer`]s (vertex blob, meshlet-local
//! vertex indices, meshlet-local triangle indices, meshlet descriptors,
//! bounding spheres, bounding cones), deduplicates uploads per asset
//! identity, and defers the actual byte copies to an explicit flush point in
//! the renderer's frame lifecycle.
//!
//! The glTF-facing modules hold the plain data types a glTF import/export
//! plugin attaches to entities, together with `data:` URI parsing.

mod asset;
mod byte_buffer;
mod data_uri;
mod gltf;
mod gpu_scene;
mod persistent_buffer;

pub use data_uri::DataUri;
pub use data_uri::DataUriDecodeError;
pub use data_uri::split_once;
pub use data_uri::base64_decode_of;
pub use data_uri::data_uri_parts;

pub use gltf::Copyright;
pub use gltf::DefaultScene;
pub use gltf::ExtensionsRequired;
pub use gltf::ExtensionsUsed;
pub use gltf::Generator;
pub use gltf::GltfComponent;
pub use gltf::GltfFileType;
pub use gltf::GltfLoaderSettings;
pub use gltf::GltfNode;
pub use gltf::GltfRoot;
pub use gltf::GltfSaverSettings;
pub use gltf::Is;
pub use gltf::MinVersion;
pub use gltf::Version;

pub use gpu_scene::BufferGenerations;
pub use gpu_scene::MeshletGpuScene;
pub use gpu_scene::MeshletGpuSceneView;
pub use gpu_scene::MeshletMeshGpuSceneSlice;
pub use gpu_scene::MeshletSceneError;
pub use gpu_scene::perform_pending_meshlet_mesh_writes;
pub use gpu_scene::upload_transition;
pub use gpu_scene::flush_all_transition;
pub use gpu_scene::lemma_upload_recorded;
pub use gpu_scene::lemma_requeue_after_flush_is_hit;

pub use asset::MESHLET_STRIDE;
pub use asset::BOUNDING_SPHERE_STRIDE;
pub use asset::BOUNDING_CONE_STRIDE;
pub use asset::Meshlet;
pub use asset::MeshletBoundingSphere;
pub use asset::MeshletBoundingCone;
pub use asset::MeshletMesh;

pub use persistent_buffer::ByteRange;
pub use persistent_buffer::PersistentGpuBuffer;
pub use persistent_buffer::PersistentGpuBufferView;
pub use persistent_buffer::flush_transition;
pub use persistent_buffer::queue_write_spec;
pub use persistent_buffer::lemma_queue_write_spec_wf;
pub use byte_buffer::ByteBuffer;
pub use byte_buffer::ByteBufferView;
pub use byte_buffer::grown_capacity;
