use voxel_terrain::aggregate::aggregate;
use voxel_terrain::aggregate::sorted_by_position;
use voxel_terrain::aggregate::MeshedChunk;
use voxel_terrain::chunk::ChunkPosition;
use voxel_terrain::mesh::ChunkMesh;
use voxel_terrain::mesh::FaceDir;
use voxel_terrain::mesh::MeshStream;
use voxel_terrain::mesh::Vertex;

fn pos(x: i32, y: i32, z: i32) -> ChunkPosition {
    ChunkPosition { x, y, z }
}

fn quad_vertices(wx: i64) -> Vec<Vertex> {
    let mut v = Vec::new();
    for k in 0..4u8 {
        v.push(Vertex {
            x: wx,
            y: k as i64,
            z: 0,
            u: if k == 1 || k == 2 { 1 } else { 0 },
            v: if k >= 2 { 1 } else { 0 },
            texture_id: 2,
            face: FaceDir::XPos,
        });
    }
    v
}

fn empty_stream() -> MeshStream {
    MeshStream { vertices: Vec::new(), indices: Vec::new() }
}

fn one_face_mesh(wx: i64) -> ChunkMesh {
    ChunkMesh {
        opaque: MeshStream { vertices: quad_vertices(wx), indices: vec![0, 1, 2, 2, 3, 0] },
        transparent: empty_stream(),
        translucent: empty_stream(),
    }
}

fn empty_mesh() -> ChunkMesh {
    ChunkMesh { opaque: empty_stream(), transparent: empty_stream(), translucent: empty_stream() }
}

#[test]
fn two_single_face_chunks_concatenate_with_offset() {
    // Two chunks each contributing one opaque face (4 vertices, 6 indices):
    // the combined opaque stream has 8 vertices and 12 indices, the second
    // chunk's indices offset by exactly 4.
    let chunks = vec![
        MeshedChunk { position: pos(0, 0, 0), visible: true, mesh: one_face_mesh(0) },
        MeshedChunk { position: pos(1, 0, 0), visible: true, mesh: one_face_mesh(16) },
    ];
    let r = aggregate(&chunks);
    assert_eq!(r.opaque.vertices.len(), 8);
    assert_eq!(r.opaque.indices.len(), 12);
    assert_eq!(r.opaque.indices, vec![0, 1, 2, 2, 3, 0, 4, 5, 6, 6, 7, 4]);
    // Vertices are appended verbatim, first chunk then second.
    assert_eq!(r.opaque.vertices[0..4].to_vec(), quad_vertices(0));
    assert_eq!(r.opaque.vertices[4..8].to_vec(), quad_vertices(16));
    // The other classes stay empty: no cross-class sharing.
    assert!(r.transparent.vertices.is_empty());
    assert!(r.translucent.vertices.is_empty());
}

#[test]
fn non_visible_chunks_contribute_nothing() {
    let chunks = vec![
        MeshedChunk { position: pos(0, 0, 0), visible: true, mesh: one_face_mesh(0) },
        MeshedChunk { position: pos(1, 0, 0), visible: false, mesh: one_face_mesh(16) },
        MeshedChunk { position: pos(2, 0, 0), visible: true, mesh: one_face_mesh(32) },
    ];
    let r = aggregate(&chunks);
    assert_eq!(r.opaque.vertices.len(), 8);
    assert_eq!(r.opaque.vertices[4..8].to_vec(), quad_vertices(32));
    assert_eq!(r.opaque.indices, vec![0, 1, 2, 2, 3, 0, 4, 5, 6, 6, 7, 4]);
}

#[test]
fn aggregation_of_no_chunks_is_empty() {
    let chunks: Vec<MeshedChunk> = Vec::new();
    let r = aggregate(&chunks);
    assert!(r.opaque.vertices.is_empty());
    assert!(r.opaque.indices.is_empty());
    assert!(r.transparent.vertices.is_empty());
    assert!(r.translucent.vertices.is_empty());
}

#[test]
fn aggregation_is_deterministic_for_equal_input_order() {
    let make = || {
        vec![
            MeshedChunk { position: pos(0, 0, 0), visible: true, mesh: one_face_mesh(0) },
            MeshedChunk { position: pos(0, 0, 1), visible: true, mesh: empty_mesh() },
            MeshedChunk { position: pos(0, 1, 0), visible: true, mesh: one_face_mesh(48) },
        ]
    };
    let a = aggregate(&make());
    let b = aggregate(&make());
    assert_eq!(a.opaque.vertices, b.opaque.vertices);
    assert_eq!(a.opaque.indices, b.opaque.indices);
}

#[test]
fn sorted_by_position_checks_lexicographic_order() {
    let sorted = vec![
        MeshedChunk { position: pos(0, 0, 0), visible: true, mesh: empty_mesh() },
        MeshedChunk { position: pos(0, 0, 1), visible: true, mesh: empty_mesh() },
        MeshedChunk { position: pos(0, 1, 0), visible: true, mesh: empty_mesh() },
        MeshedChunk { position: pos(1, 0, 0), visible: true, mesh: empty_mesh() },
    ];
    assert!(sorted_by_position(&sorted));
    let unsorted = vec![
        MeshedChunk { position: pos(0, 1, 0), visible: true, mesh: empty_mesh() },
        MeshedChunk { position: pos(0, 0, 1), visible: true, mesh: empty_mesh() },
    ];
    assert!(!sorted_by_position(&unsorted));
    let duplicate = vec![
        MeshedChunk { position: pos(0, 0, 0), visible: true, mesh: empty_mesh() },
        MeshedChunk { position: pos(0, 0, 0), visible: true, mesh: empty_mesh() },
    ];
    assert!(!sorted_by_position(&duplicate));
    let empty: Vec<MeshedChunk> = Vec::new();
    assert!(sorted_by_position(&empty));
}

#[test]
fn classes_keep_independent_index_spaces() {
    // One chunk contributes to opaque, another to translucent: each class's
    // indices start at zero over its own vertices.
    let translucent_mesh = ChunkMesh {
        opaque: empty_stream(),
        transparent: empty_stream(),
        translucent: MeshStream { vertices: quad_vertices(5), indices: vec![0, 1, 2, 2, 3, 0] },
    };
    let chunks = vec![
        MeshedChunk { position: pos(0, 0, 0), visible: true, mesh: one_face_mesh(0) },
        MeshedChunk { position: pos(1, 0, 0), visible: true, mesh: translucent_mesh },
    ];
    let r = aggregate(&chunks);
    assert_eq!(r.opaque.vertices.len(), 4);
    assert_eq!(r.opaque.indices, vec![0, 1, 2, 2, 3, 0]);
    assert_eq!(r.translucent.vertices.len(), 4);
    assert_eq!(r.translucent.indices, vec![0, 1, 2, 2, 3, 0]);
}
