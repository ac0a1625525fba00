use meshlet_scene::Meshlet;
use meshlet_scene::MeshletBoundingCone;
use meshlet_scene::MeshletBoundingSphere;
use meshlet_scene::MeshletGpuScene;
use meshlet_scene::MeshletMesh;
use meshlet_scene::MeshletSceneError;
use meshlet_scene::perform_pending_meshlet_mesh_writes;

fn mesh_a() -> MeshletMesh {
    MeshletMesh {
        vertex_data: vec![1, 2, 3, 4, 5, 6, 7, 8],
        meshlet_vertices: vec![0, 1, 2],
        meshlet_indices: vec![0, 1, 2, 0],
        meshlets: vec![
            Meshlet { start_vertex_id: 0, start_index_id: 0, vertex_count: 3, triangle_count: 1 },
            Meshlet { start_vertex_id: 3, start_index_id: 4, vertex_count: 3, triangle_count: 1 },
        ],
        meshlet_bounding_spheres: vec![
            MeshletBoundingSphere { center_x: 1, center_y: 2, center_z: 3, radius: 4 },
            MeshletBoundingSphere { center_x: 5, center_y: 6, center_z: 7, radius: 8 },
        ],
        meshlet_bounding_cones: vec![
            MeshletBoundingCone { apex_x: 1, apex_y: 1, apex_z: 1, axis_x: 0, axis_y: 0, axis_z: 9 },
            MeshletBoundingCone { apex_x: 2, apex_y: 2, apex_z: 2, axis_x: 9, axis_y: 0, axis_z: 0 },
        ],
    }
}

fn mesh_b() -> MeshletMesh {
    MeshletMesh {
        vertex_data: vec![9, 9, 9],
        meshlet_vertices: vec![7],
        meshlet_indices: vec![1, 2],
        meshlets: vec![Meshlet {
            start_vertex_id: 9,
            start_index_id: 9,
            vertex_count: 1,
            triangle_count: 1,
        }],
        meshlet_bounding_spheres: vec![MeshletBoundingSphere {
            center_x: 9,
            center_y: 9,
            center_z: 9,
            radius: 9,
        }],
        meshlet_bounding_cones: vec![MeshletBoundingCone {
            apex_x: 9,
            apex_y: 9,
            apex_z: 9,
            axis_x: 9,
            axis_y: 9,
            axis_z: 9,
        }],
    }
}

fn buffer_lens(scene: &MeshletGpuScene) -> [usize; 6] {
    [
        scene.vertex_data_buffer().len(),
        scene.meshlet_vertices_buffer().len(),
        scene.meshlet_indices_buffer().len(),
        scene.meshlets_buffer().len(),
        scene.meshlet_bounding_spheres_buffer().len(),
        scene.meshlet_bounding_cones_buffer().len(),
    ]
}

#[test]
fn two_assets_have_disjoint_ranges_in_every_buffer() {
    let mut scene = MeshletGpuScene::new();
    let a = mesh_a();
    let b = mesh_b();
    let before = buffer_lens(&scene);
    let slice_a = scene.queue_meshlet_mesh_upload(1, Some(&a)).unwrap();
    let mid = buffer_lens(&scene);
    let slice_b = scene.queue_meshlet_mesh_upload(2, Some(&b)).unwrap();
    let after = buffer_lens(&scene);
    perform_pending_meshlet_mesh_writes(&mut scene);

    // every buffer: A occupies [before, mid), B occupies [mid, after) — disjoint
    for i in 0..6 {
        assert!(before[i] <= mid[i] && mid[i] <= after[i]);
    }
    // A contributed to all six buffers
    for i in 0..6 {
        assert!(mid[i] > before[i]);
    }
    // the meshlet element ranges are disjoint too
    assert!(slice_a.end <= slice_b.start);
    // slice(A) spans exactly A's descriptor-record count
    assert_eq!(slice_a.end - slice_a.start, a.meshlets.len());
    assert_eq!(slice_b.end - slice_b.start, b.meshlets.len());
    // both vertex blobs landed verbatim in their own ranges
    let vbuf = scene.vertex_data_buffer();
    assert_eq!(vbuf.read_bytes(before[0], mid[0]), a.vertex_data);
    assert_eq!(vbuf.read_bytes(mid[0], after[0]), b.vertex_data);
}

#[test]
fn requeue_after_flush_appends_nothing() {
    let mut scene = MeshletGpuScene::new();
    let a = mesh_a();
    let slice1 = scene.queue_meshlet_mesh_upload(7, Some(&a)).unwrap();
    perform_pending_meshlet_mesh_writes(&mut scene);
    let lens = buffer_lens(&scene);
    let flushed = scene.meshlets_buffer().flushed_len();

    let slice2 = scene.queue_meshlet_mesh_upload(7, Some(&a)).unwrap();
    assert_eq!(slice1, slice2);
    assert_eq!(buffer_lens(&scene), lens, "no bytes appended on a dedup hit");
    assert_eq!(scene.meshlets_buffer().flushed_len(), flushed);
}

#[test]
fn repeated_queue_returns_identical_slice_without_upload() {
    let mut scene = MeshletGpuScene::new();
    let a = mesh_a();
    let slice1 = scene.queue_meshlet_mesh_upload(3, Some(&a)).unwrap();
    let lens = buffer_lens(&scene);
    // the loader work must not run again: even without the asset at hand,
    // the recorded slice comes back and nothing is queued
    let slice2 = scene.queue_meshlet_mesh_upload(3, None).unwrap();
    let slice3 = scene.queue_meshlet_mesh_upload(3, Some(&a)).unwrap();
    assert_eq!(slice1, slice2);
    assert_eq!(slice1, slice3);
    assert_eq!(buffer_lens(&scene), lens);
}

#[test]
fn missing_asset_is_recoverable() {
    let mut scene = MeshletGpuScene::new();
    let before = buffer_lens(&scene);
    let r = scene.queue_meshlet_mesh_upload(11, None);
    assert_eq!(r, Err(MeshletSceneError::AssetNotLoaded));
    assert_eq!(buffer_lens(&scene), before, "a deferred entity changes nothing");
    // the asset arrives in a later frame and the upload succeeds
    let a = mesh_a();
    let slice = scene.queue_meshlet_mesh_upload(11, Some(&a)).unwrap();
    assert_eq!(slice.end - slice.start, a.meshlets.len());
}

#[test]
fn descriptor_bytes_round_trip_through_flush() {
    let mut scene = MeshletGpuScene::new();
    let a = mesh_a();
    let slice = scene.queue_meshlet_mesh_upload(1, Some(&a)).unwrap();
    perform_pending_meshlet_mesh_writes(&mut scene);

    // vertex blob lands verbatim
    let vbuf = scene.vertex_data_buffer();
    assert_eq!(vbuf.read_bytes(0, vbuf.flushed_len()), a.vertex_data);

    // descriptor records land as four little-endian words each
    let stride = meshlet_scene::MESHLET_STRIDE;
    assert_eq!(slice.start, 0);
    let mbuf = scene.meshlets_buffer();
    let bytes = mbuf.read_bytes(0, mbuf.flushed_len());
    assert_eq!(bytes.len(), stride * a.meshlets.len());
    let mut expected = Vec::new();
    for m in &a.meshlets {
        expected.extend_from_slice(&m.start_vertex_id.to_le_bytes());
        expected.extend_from_slice(&m.start_index_id.to_le_bytes());
        expected.extend_from_slice(&m.vertex_count.to_le_bytes());
        expected.extend_from_slice(&m.triangle_count.to_le_bytes());
    }
    assert_eq!(bytes, expected);

    // local vertex indices land as little-endian words
    let ibuf = scene.meshlet_vertices_buffer();
    let bytes = ibuf.read_bytes(0, ibuf.flushed_len());
    let mut expected = Vec::new();
    for v in &a.meshlet_vertices {
        expected.extend_from_slice(&v.to_le_bytes());
    }
    assert_eq!(bytes, expected);
}

#[test]
fn bind_group_staleness_follows_generations() {
    let mut scene = MeshletGpuScene::new();
    let baked = scene.buffer_generations();
    assert!(!scene.bind_group_stale(&baked));

    // a first upload forces every buffer to allocate: all identities change
    let a = mesh_a();
    scene.queue_meshlet_mesh_upload(1, Some(&a)).unwrap();
    assert!(!scene.bind_group_stale(&baked), "queueing alone touches no buffer");
    perform_pending_meshlet_mesh_writes(&mut scene);
    assert!(scene.bind_group_stale(&baked));

    let rebaked = scene.buffer_generations();
    assert!(!scene.bind_group_stale(&rebaked));
}

#[test]
fn empty_mesh_yields_zero_length_slice() {
    let mut scene = MeshletGpuScene::new();
    let empty = MeshletMesh {
        vertex_data: Vec::new(),
        meshlet_vertices: Vec::new(),
        meshlet_indices: Vec::new(),
        meshlets: Vec::new(),
        meshlet_bounding_spheres: Vec::new(),
        meshlet_bounding_cones: Vec::new(),
    };
    let slice = scene.queue_meshlet_mesh_upload(1, Some(&empty)).unwrap();
    assert_eq!(slice.start, slice.end);
    // a later real asset is placed correctly after the zero-length one
    let a = mesh_a();
    let slice_a = scene.queue_meshlet_mesh_upload(2, Some(&a)).unwrap();
    assert_eq!(slice_a.start, 0);
    assert_eq!(slice_a.end - slice_a.start, a.meshlets.len());
    perform_pending_meshlet_mesh_writes(&mut scene);
    assert_eq!(
        scene.meshlets_buffer().flushed_len(),
        meshlet_scene::MESHLET_STRIDE * a.meshlets.len()
    );
}
