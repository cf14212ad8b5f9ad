use voxel_terrain::block::Block;
use voxel_terrain::chunk::Chunk;
use voxel_terrain::chunk::ChunkPosition;
use voxel_terrain::chunk::VoxelCell;
use voxel_terrain::mesh::build;
use voxel_terrain::mesh::NeighborSet;

fn pos(x: i32, y: i32, z: i32) -> ChunkPosition {
    ChunkPosition { x, y, z }
}

fn empty_chunk(p: ChunkPosition, size: u32) -> Chunk {
    let n = (size * size * size) as usize;
    Chunk { position: p, size, voxels: vec![VoxelCell::Empty; n], visible: true }
}

fn no_neighbors() -> NeighborSet {
    NeighborSet { x_neg: None, x_pos: None, y_neg: None, y_pos: None, z_neg: None, z_pos: None }
}

fn cell_index(size: u32, x: u32, y: u32, z: u32) -> usize {
    ((x * size + y) * size + z) as usize
}

#[test]
fn isolated_interior_voxel_emits_six_faces() {
    // A single solid cube voxel away from every border: six faces, 24
    // vertices, 36 indices, all in the opaque stream.
    let mut c = empty_chunk(pos(0, 0, 0), 3);
    c.voxels[cell_index(3, 1, 1, 1)] = VoxelCell::BorderVisible(Block(2));
    let m = build(&c, &no_neighbors());
    assert_eq!(m.opaque.vertices.len(), 24);
    assert_eq!(m.opaque.indices.len(), 36);
    assert!(m.transparent.vertices.is_empty());
    assert!(m.translucent.vertices.is_empty());
    // The dense index pattern: two triangles per quad, zero-based.
    assert_eq!(&m.opaque.indices[0..12], &[0, 1, 2, 2, 3, 0, 4, 5, 6, 6, 7, 4]);
}

#[test]
fn build_is_deterministic_for_equal_inputs() {
    let mut c = empty_chunk(pos(2, -3, 1), 3);
    c.voxels[cell_index(3, 1, 1, 1)] = VoxelCell::BorderVisible(Block(0));
    c.voxels[cell_index(3, 0, 0, 0)] = VoxelCell::BorderVisibleFluid(Block(6));
    c.voxels[cell_index(3, 2, 2, 2)] = VoxelCell::AlwaysVisible(Block(4));
    let m1 = build(&c, &no_neighbors());
    let m2 = build(&c, &no_neighbors());
    assert_eq!(m1.opaque.vertices, m2.opaque.vertices);
    assert_eq!(m1.opaque.indices, m2.opaque.indices);
    assert_eq!(m1.transparent.vertices, m2.transparent.vertices);
    assert_eq!(m1.transparent.indices, m2.transparent.indices);
    assert_eq!(m1.translucent.vertices, m2.translucent.vertices);
    assert_eq!(m1.translucent.indices, m2.translucent.indices);
}

#[test]
fn boundary_faces_culled_without_neighbor() {
    // A lone voxel filling a size-1 chunk: every face leaves the chunk, no
    // neighbor is loaded, so every face is culled: the count is the
    // no-neighbor-culled count (0), not the fully-exposed count (6).
    let mut c = empty_chunk(pos(0, 0, 0), 1);
    c.voxels[0] = VoxelCell::BorderVisible(Block(2));
    let m = build(&c, &no_neighbors());
    assert_eq!(m.opaque.vertices.len(), 0);
    assert_eq!(m.opaque.indices.len(), 0);
}

#[test]
fn corner_voxel_keeps_only_interior_faces() {
    // A voxel in the corner of a size-2 chunk: three faces exit the chunk
    // (culled, no neighbors), three face empty in-chunk cells (emitted).
    let mut c = empty_chunk(pos(0, 0, 0), 2);
    c.voxels[cell_index(2, 0, 0, 0)] = VoxelCell::BorderVisible(Block(2));
    let m = build(&c, &no_neighbors());
    assert_eq!(m.opaque.vertices.len(), 12);
    assert_eq!(m.opaque.indices.len(), 18);
}

#[test]
fn boundary_face_culled_against_opaque_neighbor_cell() {
    // Size-1 chunks: the x+1 neighbor's wrapped boundary cell is solid, so
    // the face crossing the border is culled like an interior face.
    let mut c = empty_chunk(pos(0, 0, 0), 1);
    c.voxels[0] = VoxelCell::BorderVisible(Block(2));
    let mut n = empty_chunk(pos(1, 0, 0), 1);
    n.voxels[0] = VoxelCell::BorderVisible(Block(2));
    let nb = NeighborSet { x_pos: Some(n), ..no_neighbors() };
    let m = build(&c, &nb);
    assert_eq!(m.opaque.vertices.len(), 0);
}

#[test]
fn boundary_face_emitted_against_empty_neighbor_cell() {
    // Same setup, but the neighbor's boundary cell is empty: the face is
    // emitted; the five directions without a neighbor stay culled.
    let mut c = empty_chunk(pos(0, 0, 0), 1);
    c.voxels[0] = VoxelCell::BorderVisible(Block(2));
    let n = empty_chunk(pos(1, 0, 0), 1);
    let nb = NeighborSet { x_pos: Some(n), ..no_neighbors() };
    let m = build(&c, &nb);
    assert_eq!(m.opaque.vertices.len(), 4);
    assert_eq!(m.opaque.indices, vec![0, 1, 2, 2, 3, 0]);
}

#[test]
fn fluid_never_crosses_the_chunk_border() {
    // A fluid voxel filling a size-1 chunk: even with an empty neighbor
    // loaded, border faces of fluid are always culled.
    let mut c = empty_chunk(pos(0, 0, 0), 1);
    c.voxels[0] = VoxelCell::BorderVisibleFluid(Block(6));
    let n = empty_chunk(pos(1, 0, 0), 1);
    let nb = NeighborSet { x_pos: Some(n), ..no_neighbors() };
    let m = build(&c, &nb);
    assert_eq!(m.translucent.vertices.len(), 0);
}

#[test]
fn fluid_interior_faces_follow_the_fluid_rule() {
    // A fluid voxel in the corner of a size-2 chunk: its three in-chunk
    // neighbor cells are empty, and emptiness does not obscure fluid, so
    // those three faces are emitted; the three border faces are culled.
    let mut c = empty_chunk(pos(0, 0, 0), 2);
    c.voxels[cell_index(2, 0, 0, 0)] = VoxelCell::BorderVisibleFluid(Block(6));
    let m = build(&c, &no_neighbors());
    assert_eq!(m.translucent.vertices.len(), 12);
    assert_eq!(m.translucent.indices.len(), 18);
}

#[test]
fn fluid_face_culled_by_adjacent_fluid_cell() {
    // Two adjacent fluid cells obscure each other's shared faces.
    let mut c = empty_chunk(pos(0, 0, 0), 2);
    c.voxels[cell_index(2, 0, 0, 0)] = VoxelCell::BorderVisibleFluid(Block(6));
    c.voxels[cell_index(2, 1, 0, 0)] = VoxelCell::BorderVisibleFluid(Block(6));
    let m = build(&c, &no_neighbors());
    // Each cell keeps two emitted faces (toward its two empty in-chunk
    // neighbors); the shared pair is culled on both sides.
    assert_eq!(m.translucent.vertices.len(), 16);
}

#[test]
fn cross_sprite_always_emits_two_quads() {
    // An always-visible sprite bypasses occlusion: two diagonal quads, 8
    // vertices and 12 indices, even when fully enclosed by solid cells.
    let mut c = empty_chunk(pos(0, 0, 0), 3);
    c.voxels[cell_index(3, 1, 1, 1)] = VoxelCell::AlwaysVisible(Block(4));
    for x in 0..3u32 {
        for y in 0..3u32 {
            for z in 0..3u32 {
                if (x, y, z) != (1, 1, 1) {
                    c.voxels[cell_index(3, x, y, z)] = VoxelCell::BorderVisible(Block(2));
                }
            }
        }
    }
    let m = build(&c, &no_neighbors());
    assert_eq!(m.transparent.vertices.len(), 8);
    assert_eq!(m.transparent.indices, vec![0, 1, 2, 2, 3, 0, 4, 5, 6, 6, 7, 4]);
}

#[test]
fn transparency_classes_form_disjoint_streams() {
    // One opaque, one transparent (sprite) and one translucent (fluid)
    // block, pairwise non-adjacent: three disjoint streams with no shared
    // vertices.
    let mut c = empty_chunk(pos(0, 0, 0), 2);
    c.voxels[cell_index(2, 0, 0, 0)] = VoxelCell::BorderVisible(Block(2));
    c.voxels[cell_index(2, 1, 1, 0)] = VoxelCell::BorderVisibleFluid(Block(6));
    c.voxels[cell_index(2, 0, 1, 1)] = VoxelCell::AlwaysVisible(Block(4));
    let m = build(&c, &no_neighbors());
    assert_eq!(m.opaque.vertices.len(), 12);
    assert_eq!(m.transparent.vertices.len(), 8);
    assert_eq!(m.translucent.vertices.len(), 12);
    // Every vertex carries its own block's texture: no cross-stream sharing.
    assert!(m.opaque.vertices.iter().all(|v| v.texture_id == 2));
    assert!(m.transparent.vertices.iter().all(|v| v.texture_id == 4));
    assert!(m.translucent.vertices.iter().all(|v| v.texture_id == 6));
    // Each stream's index space is its own.
    assert!(m.opaque.indices.iter().all(|&i| (i as usize) < m.opaque.vertices.len()));
    assert!(m.transparent.indices.iter().all(|&i| (i as usize) < m.transparent.vertices.len()));
    assert!(m.translucent.indices.iter().all(|&i| (i as usize) < m.translucent.vertices.len()));
}

#[test]
fn solid_face_not_obscured_by_fluid_neighbor_cell() {
    // A fluid cell does not obscure a solid face: the shared face of the
    // solid block is emitted.
    let mut c = empty_chunk(pos(0, 0, 0), 2);
    c.voxels[cell_index(2, 0, 0, 0)] = VoxelCell::BorderVisible(Block(2));
    c.voxels[cell_index(2, 1, 0, 0)] = VoxelCell::BorderVisibleFluid(Block(6));
    let m = build(&c, &no_neighbors());
    // Corner solid voxel: three border faces culled, three in-chunk faces
    // all emitted (two empty neighbors, one fluid neighbor).
    assert_eq!(m.opaque.vertices.len(), 12);
}

#[test]
fn world_space_translation_uses_chunk_origin() {
    // A voxel at local (1,1,1) of the chunk at lattice (2,-3,1) with size 3
    // has its origin corner at world (7, -8, 4).
    let mut c = empty_chunk(pos(2, -3, 1), 3);
    c.voxels[cell_index(3, 1, 1, 1)] = VoxelCell::BorderVisible(Block(2));
    let m = build(&c, &no_neighbors());
    assert_eq!(m.opaque.vertices.len(), 24);
    for v in m.opaque.vertices.iter() {
        assert!(v.x == 7 || v.x == 8);
        assert!(v.y == -8 || v.y == -7);
        assert!(v.z == 4 || v.z == 5);
    }
}
