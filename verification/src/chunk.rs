//! Chunks: fixed-size cubic voxel grids, the unit of generation and meshing.
//!
//! A chunk's grid is a flat array of [`VoxelCell`] of length `size³`, indexed
//! by `(x·size + y)·size + z` for local coordinates `x, y, z` in
//! `[0, size)`. Generation classifies every cell from the chunk position and
//! one [`ColumnSample`] per horizontal column, so the grid is a pure function
//! of those inputs.

use vstd::prelude::*;
use vstd::arithmetic::div_mod::lemma_fundamental_div_mod;
use vstd::arithmetic::div_mod::lemma_fundamental_div_mod_converse;
use vstd::arithmetic::div_mod::lemma_mod_bound;
use crate::block::Block;
use crate::block::MeshType;
use crate::block::spec_block_properties;
use crate::terrain::ColumnSample;
use crate::terrain::FP_SCALE;
use crate::terrain::classify;
use crate::terrain::spec_classify;

verus! {

/// Largest accepted chunk side length; keeps every flat index and every face
/// count of a single chunk far below the index type's range.
pub const MAX_CHUNK_SIZE: u32 = 64;

/// The configured default chunk side length.
pub const CHUNK_SIZE: u32 = 16;

/// Classification of one grid cell.
#[derive(Clone, Copy, Debug, PartialEq, Eq, Structural)]
pub enum VoxelCell {
    /// Air: contributes no geometry.
    Empty,
    /// A solid block whose faces take part in occlusion testing.
    BorderVisible(Block),
    /// A fluid block; its faces use the fluid occlusion rule and are never
    /// rendered at chunk borders.
    BorderVisibleFluid(Block),
    /// A block that bypasses occlusion culling entirely (cross-sprite
    /// meshes).
    AlwaysVisible(Block),
}

/// Integer lattice coordinate of a chunk's origin, in chunk-size units.
/// Ordered lexicographically by `(x, y, z)` for deterministic iteration.
#[derive(Clone, Copy, Debug, PartialEq, Eq, Structural, Hash)]
pub struct ChunkPosition {
    /// Chunk grid coordinate along the x axis.
    pub x: i32,
    /// Chunk grid coordinate along the y axis.
    pub y: i32,
    /// Chunk grid coordinate along the z axis.
    pub z: i32,
}

impl ChunkPosition {
    /// Strict lexicographic order on `(x, y, z)`.
    pub open spec fn spec_lt(self, other: ChunkPosition) -> bool {
        self.x < other.x || (self.x == other.x && (self.y < other.y || (self.y == other.y
            && self.z < other.z)))
    }

    /// Compares two positions in the lexicographic order used for
    /// deterministic chunk iteration.
    pub fn lt(&self, other: &ChunkPosition) -> (r: bool)
        ensures
            r == self.spec_lt(*other),
    {
        self.x < other.x || (self.x == other.x && (self.y < other.y || (self.y == other.y
            && self.z < other.z)))
    }
}

/// Flat index of local cell `(x, y, z)` in a grid of side `size`.
pub open spec fn cell_index(size: int, x: int, y: int, z: int) -> int {
    (x * size + y) * size + z
}

/// Local x coordinate encoded in flat index `i`.
pub open spec fn idx_x(size: int, i: int) -> int {
    i / (size * size)
}

/// Local y coordinate encoded in flat index `i`.
pub open spec fn idx_y(size: int, i: int) -> int {
    (i % (size * size)) / size
}

/// Local z coordinate encoded in flat index `i`.
pub open spec fn idx_z(size: int, i: int) -> int {
    (i % (size * size)) % size
}

/// The flat index of an in-bounds cell is in bounds and decodes back to the
/// cell's coordinates.
pub proof fn lemma_cell_index_roundtrip(size: int, x: int, y: int, z: int)
    requires
        0 < size,
        0 <= x < size,
        0 <= y < size,
        0 <= z < size,
    ensures
        0 <= cell_index(size, x, y, z) < size * size * size,
        idx_x(size, cell_index(size, x, y, z)) == x,
        idx_y(size, cell_index(size, x, y, z)) == y,
        idx_z(size, cell_index(size, x, y, z)) == z,
{
    let i = cell_index(size, x, y, z);
    let rem = y * size + z;
    assert(0 <= rem < size * size) by (nonlinear_arith)
        requires
            0 < size,
            0 <= y < size,
            0 <= z < size,
            rem == y * size + z,
    ;
    assert(i == x * (size * size) + rem) by (nonlinear_arith)
        requires
            i == (x * size + y) * size + z,
            rem == y * size + z,
    ;
    assert(0 <= i < size * size * size) by (nonlinear_arith)
        requires
            0 < size,
            0 <= x < size,
            0 <= rem < size * size,
            i == x * (size * size) + rem,
    ;
    lemma_fundamental_div_mod_converse(i, size * size, x, rem);
    lemma_fundamental_div_mod_converse(rem, size, y, z);
}

/// Every in-bounds flat index decodes to in-bounds coordinates, and encoding
/// them again yields the index.
pub proof fn lemma_flat_index_bounds(size: int, i: int)
    requires
        0 < size,
        0 <= i < size * size * size,
    ensures
        0 <= idx_x(size, i) < size,
        0 <= idx_y(size, i) < size,
        0 <= idx_z(size, i) < size,
        cell_index(size, idx_x(size, i), idx_y(size, i), idx_z(size, i)) == i,
{
    let x = idx_x(size, i);
    let rem = i % (size * size);
    let y = idx_y(size, i);
    let z = idx_z(size, i);
    lemma_fundamental_div_mod(i, size * size);
    lemma_mod_bound(i, size * size);
    lemma_fundamental_div_mod(rem, size);
    lemma_mod_bound(rem, size);
    assert(0 <= x < size) by (nonlinear_arith)
        requires
            0 < size,
            0 <= i < size * size * size,
            i == (size * size) * x + rem,
            0 <= rem < size * size,
    ;
    assert(0 <= y < size) by (nonlinear_arith)
        requires
            0 < size,
            0 <= rem < size * size,
            rem == size * y + z,
            0 <= z < size,
    ;
    assert(cell_index(size, x, y, z) == i) by (nonlinear_arith)
        requires
            i == (size * size) * x + rem,
            rem == size * y + z,
            cell_index(size, x, y, z) == (x * size + y) * size + z,
    ;
}

/// The voxel cell standing for an optional block: air becomes [`VoxelCell::Empty`],
/// and a block is tagged by its mesh type.
pub open spec fn spec_cell_of(b: Option<Block>) -> VoxelCell {
    match b {
        None => VoxelCell::Empty,
        Some(block) => match spec_block_properties(block).mesh_type {
            MeshType::Cube => VoxelCell::BorderVisible(block),
            MeshType::Fluid => VoxelCell::BorderVisibleFluid(block),
            MeshType::Cross => VoxelCell::AlwaysVisible(block),
        },
    }
}

/// The fixed-point world elevation of the local cell layer `y` of a chunk at
/// grid position `pos_y`.
pub open spec fn spec_world_y_fp(pos_y: int, size: int, y: int) -> int {
    (pos_y * size + y) * FP_SCALE
}

/// The cell generated at local coordinates `(x, y, z)` of a chunk at
/// `position`, given one column sample per horizontal column.
pub open spec fn spec_cell_at(
    position: ChunkPosition,
    size: int,
    columns: Seq<ColumnSample>,
    x: int,
    y: int,
    z: int,
) -> VoxelCell {
    let col = columns[x * size + z];
    spec_cell_of(
        spec_classify(
            spec_world_y_fp(position.y as int, size, y),
            col.base_height as int,
            col.floralness as int,
        ),
    )
}

/// The full voxel grid generated for a chunk: a pure function of the chunk
/// position, the side length and the column samples.
pub open spec fn spec_generate_chunk(
    position: ChunkPosition,
    size: int,
    columns: Seq<ColumnSample>,
) -> Seq<VoxelCell> {
    Seq::new(
        (size * size * size) as nat,
        |i: int| spec_cell_at(position, size, columns, idx_x(size, i), idx_y(size, i), idx_z(size, i)),
    )
}

/// Generates the voxel grid of the chunk at `position`: every cell of the
/// cube of side `size` is classified from its world elevation and its
/// column's sample, and tagged by its block's mesh type. Total: every cell
/// receives a classification, air becoming [`VoxelCell::Empty`].
///
/// Every non-empty cell keeps its border-visibility tag: occlusion is
/// resolved wholly by the mesh builder, which culls interior faces cell by
/// cell and resolves boundary faces against the neighbor chunks, so a cell
/// buried under opaque neighbors simply contributes no geometry.
pub fn generate_chunk(
    position: ChunkPosition,
    size: u32,
    columns: &Vec<ColumnSample>,
) -> (r: Vec<VoxelCell>)
    requires
        1 <= size <= MAX_CHUNK_SIZE,
        columns@.len() == size * size,
        forall|i: int| 0 <= i < columns@.len() ==> (#[trigger] columns@[i]).wf(),
    ensures
        r@ == spec_generate_chunk(position, size as int, columns@),
{
    let s = size as usize;
    let ghost si = s as int;
    proof {
        assert(si * si <= 4096 && si * si * si <= 262144) by (nonlinear_arith)
            requires
                1 <= si <= 64,
        ;
    }
    let ss = s * s;
    let total = ss * s;
    let ghost model = spec_generate_chunk(position, size as int, columns@);
    let mut r: Vec<VoxelCell> = Vec::new();
    let mut i: usize = 0;
    while i < total
        invariant
            1 <= s <= 64,
            si == s as int,
            si == size as int,
            1 <= size <= MAX_CHUNK_SIZE,
            ss as int == si * si,
            ss <= 4096,
            total as int == si * si * si,
            columns@.len() == si * si,
            forall|k: int| 0 <= k < columns@.len() ==> (#[trigger] columns@[k]).wf(),
            model == spec_generate_chunk(position, si, columns@),
            i <= total,
            r@.len() == i as int,
            forall|k: int| 0 <= k < i as int ==> r@[k] == model[k],
        decreases total - i,
    {
        let x = i / ss;
        let rem = i % ss;
        let y = rem / s;
        let z = rem % s;
        proof {
            let ii = i as int;
            lemma_fundamental_div_mod(ii, si * si);
            lemma_mod_bound(ii, si * si);
            lemma_fundamental_div_mod(rem as int, si);
            lemma_mod_bound(rem as int, si);
            assert(x as int == ii / (si * si));
            assert(rem as int == ii % (si * si));
            assert((x as int) < si) by (nonlinear_arith)
                requires
                    1 <= si,
                    0 <= ii < si * si * si,
                    ii == (si * si) * (x as int) + (rem as int),
                    0 <= (rem as int) < si * si,
            ;
            assert((y as int) < si) by (nonlinear_arith)
                requires
                    1 <= si,
                    (rem as int) < si * si,
                    rem as int == si * (y as int) + (z as int),
                    0 <= y as int,
                    0 <= (z as int) < si,
            ;
            assert((x as int) * si + (z as int) < si * si) by (nonlinear_arith)
                requires
                    0 <= (x as int) < si,
                    0 <= (z as int) < si,
            ;
            assert(idx_x(si, ii) == x as int);
            assert(idx_y(si, ii) == y as int);
            assert(idx_z(si, ii) == z as int);
            assert(-0x2000_0000_0000 <= (position.y as int) * si <= 0x2000_0000_0000)
                by (nonlinear_arith)
                requires
                    -0x8000_0000 <= (position.y as int) <= 0x7fff_ffff,
                    1 <= si <= 64,
            ;
        }
        let col = &columns[x * s + z];
        let wy_fp: i64 = (position.y as i64 * size as i64 + y as i64) * FP_SCALE;
        let cell = match classify(wy_fp, col) {
            None => VoxelCell::Empty,
            Some(block) => {
                let props = crate::block::block_properties(block);
                match props.mesh_type {
                    MeshType::Cube => VoxelCell::BorderVisible(block),
                    MeshType::Fluid => VoxelCell::BorderVisibleFluid(block),
                    MeshType::Cross => VoxelCell::AlwaysVisible(block),
                }
            },
        };
        r.push(cell);
        proof {
            assert(r@[i as int] == model[i as int]);
        }
        i = i + 1;
    }
    proof {
        assert(r@ =~= model);
    }
    r
}

/// The generated grid holds, at every local coordinate, exactly the
/// classification of that cell's world elevation against its column sample.
pub proof fn lemma_generate_chunk_cell(
    position: ChunkPosition,
    size: int,
    columns: Seq<ColumnSample>,
    x: int,
    y: int,
    z: int,
)
    requires
        0 < size,
        0 <= x < size,
        0 <= y < size,
        0 <= z < size,
    ensures
        spec_generate_chunk(position, size, columns)[cell_index(size, x, y, z)] == spec_cell_at(
            position,
            size,
            columns,
            x,
            y,
            z,
        ),
{
    lemma_cell_index_roundtrip(size, x, y, z);
}

/// Law: chunk generation is deterministic. Two voxel grids generated for the
/// same position, side length and column samples are identical.
pub proof fn lemma_generate_chunk_deterministic(
    position: ChunkPosition,
    size: int,
    columns: Seq<ColumnSample>,
    r1: Seq<VoxelCell>,
    r2: Seq<VoxelCell>,
)
    requires
        r1 == spec_generate_chunk(position, size, columns),
        r2 == spec_generate_chunk(position, size, columns),
    ensures
        r1 == r2,
{
}

/// A fixed-size cubic region of the voxel grid: the unit of generation and
/// meshing. The grid is immutable after generation; neighbor chunks are
/// resolved by position through an external store, never owned.
#[derive(Clone, Debug)]
pub struct Chunk {
    /// Lattice coordinate of the chunk's origin, in chunk-size units.
    pub position: ChunkPosition,
    /// Side length of the cubic grid.
    pub size: u32,
    /// Flat array of `size³` cells, indexed by [`cell_index`].
    pub voxels: Vec<VoxelCell>,
    /// Whether the chunk passes the external visibility test and contributes
    /// to aggregation.
    pub visible: bool,
}

impl Chunk {
    /// A chunk is well formed when its side length is accepted and its grid
    /// has exactly `size³` cells.
    pub open spec fn wf(self) -> bool {
        &&& 1 <= self.size <= MAX_CHUNK_SIZE
        &&& self.voxels@.len() == self.size * self.size * self.size
    }

    /// The cell at local coordinates `(x, y, z)`.
    pub open spec fn spec_cell(self, x: int, y: int, z: int) -> VoxelCell {
        self.voxels@[cell_index(self.size as int, x, y, z)]
    }

    /// Reads the cell at local coordinates `(x, y, z)`.
    pub fn cell(&self, x: u32, y: u32, z: u32) -> (r: VoxelCell)
        requires
            self.wf(),
            x < self.size,
            y < self.size,
            z < self.size,
        ensures
            r == self.spec_cell(x as int, y as int, z as int),
    {
        let s = self.size as usize;
        proof {
            lemma_cell_index_roundtrip(s as int, x as int, y as int, z as int);
            assert((x as int) * (s as int) + (y as int) < (s as int) * (s as int)
                && (s as int) * (s as int) <= 4096
                && (s as int) * (s as int) * (s as int) <= 262144) by (nonlinear_arith)
                requires
                    0 <= (x as int) < (s as int),
                    0 <= (y as int) < (s as int),
                    1 <= (s as int) <= 64,
            ;
        }
        self.voxels[(x as usize * s + y as usize) * s + z as usize]
    }

    /// Generates the chunk at `position`: the grid is
    /// [`spec_generate_chunk`] of the position, side length and column
    /// samples, and the chunk starts out visible.
    pub fn new(position: ChunkPosition, size: u32, columns: &Vec<ColumnSample>) -> (c: Chunk)
        requires
            1 <= size <= MAX_CHUNK_SIZE,
            columns@.len() == size * size,
            forall|i: int| 0 <= i < columns@.len() ==> (#[trigger] columns@[i]).wf(),
        ensures
            c.wf(),
            c.position == position,
            c.size == size,
            c.visible == true,
            c.voxels@ == spec_generate_chunk(position, size as int, columns@),
    {
        let voxels = generate_chunk(position, size, columns);
        Chunk { position, size, voxels, visible: true }
    }
}

} // verus!
