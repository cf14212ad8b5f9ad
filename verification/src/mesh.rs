//! Face-culled chunk meshing.
//!
//! For each non-empty voxel the builder decides, per face direction, whether
//! the face is visible: a face whose neighboring cell lies inside the chunk
//! is culled when that cell obscures it; a face leaving the chunk is resolved
//! through the up-to-six adjacent chunks, and culled when the adjacent chunk
//! is absent (the conservative edge-of-loaded-world policy) or its wrapped
//! boundary cell obscures it. Cross-sprite cells bypass occlusion and always
//! emit two diagonal quads; fluid faces use their own obscuring rule and are
//! always culled at chunk borders.
//!
//! Every emitted quad contributes 4 vertices and 6 indices (two triangles
//! with fixed winding) to the stream selected by the block's transparency
//! class, so each stream's indices stay dense and zero-based per chunk.

use vstd::prelude::*;
use vstd::arithmetic::div_mod::lemma_fundamental_div_mod;
use vstd::arithmetic::div_mod::lemma_mod_bound;
use vstd::seq_lib::lemma_concat_associative;
use crate::block::Block;
use crate::block::Transparency;
use crate::block::block_properties;
use crate::block::spec_block_properties;
use crate::chunk::Chunk;
use crate::chunk::VoxelCell;
use crate::chunk::cell_index;
use crate::chunk::idx_x;
use crate::chunk::idx_y;
use crate::chunk::idx_z;
use crate::chunk::lemma_cell_index_roundtrip;
use crate::chunk::lemma_flat_index_bounds;

verus! {

/// Direction tag carried by every vertex: the outward normal of an axis-
/// aligned face, or one of the two diagonal planes of a cross sprite.
#[derive(Clone, Copy, Debug, PartialEq, Eq, Structural)]
pub enum FaceDir {
    /// Face looking toward negative x.
    XNeg,
    /// Face looking toward positive x.
    XPos,
    /// Face looking toward negative y.
    YNeg,
    /// Face looking toward positive y.
    YPos,
    /// Face looking toward negative z.
    ZNeg,
    /// Face looking toward positive z.
    ZPos,
    /// First diagonal quad of a cross sprite.
    CrossA,
    /// Second diagonal quad of a cross sprite.
    CrossB,
}

/// Whether `d` is one of the six axis-aligned face directions.
pub open spec fn is_axis_dir(d: FaceDir) -> bool {
    !(d == FaceDir::CrossA || d == FaceDir::CrossB)
}

/// X component of the outward step from a cell to the neighbor a face of
/// direction `d` looks at.
pub open spec fn dir_dx(d: FaceDir) -> int {
    match d {
        FaceDir::XNeg => -1,
        FaceDir::XPos => 1,
        _ => 0,
    }
}

/// Y component of the outward step of direction `d`.
pub open spec fn dir_dy(d: FaceDir) -> int {
    match d {
        FaceDir::YNeg => -1,
        FaceDir::YPos => 1,
        _ => 0,
    }
}

/// Z component of the outward step of direction `d`.
pub open spec fn dir_dz(d: FaceDir) -> int {
    match d {
        FaceDir::ZNeg => -1,
        FaceDir::ZPos => 1,
        _ => 0,
    }
}

/// A mesh vertex: position on the world lattice, unit texture coordinates,
/// the block's texture id for atlas lookup, and the face direction tag.
#[derive(Clone, Copy, Debug, PartialEq, Eq, Structural)]
pub struct Vertex {
    /// World x coordinate of the vertex, in block units.
    pub x: i64,
    /// World y coordinate of the vertex, in block units.
    pub y: i64,
    /// World z coordinate of the vertex, in block units.
    pub z: i64,
    /// Texture coordinate along u, 0 or 1 within the block's sub-rectangle.
    pub u: u8,
    /// Texture coordinate along v, 0 or 1 within the block's sub-rectangle.
    pub v: u8,
    /// Index of the block's texture in the atlas.
    pub texture_id: u32,
    /// Outward direction of the face this vertex belongs to.
    pub face: FaceDir,
}

/// X offset (0 or 1) of corner `k` of a quad of direction `d` from the
/// cell's origin corner.
pub open spec fn face_corner_dx(d: FaceDir, k: int) -> int {
    match d {
        FaceDir::XNeg => 0,
        FaceDir::XPos => 1,
        FaceDir::YNeg => if k == 1 || k == 2 { 1 } else { 0 },
        FaceDir::YPos => if k == 1 || k == 2 { 1 } else { 0 },
        FaceDir::ZNeg => if k == 0 || k == 3 { 1 } else { 0 },
        FaceDir::ZPos => if k == 1 || k == 2 { 1 } else { 0 },
        FaceDir::CrossA => if k == 1 || k == 2 { 1 } else { 0 },
        FaceDir::CrossB => if k == 0 || k == 3 { 1 } else { 0 },
    }
}

/// Y offset (0 or 1) of corner `k` of a quad of direction `d`.
pub open spec fn face_corner_dy(d: FaceDir, k: int) -> int {
    match d {
        FaceDir::YNeg => 0,
        FaceDir::YPos => 1,
        _ => if k == 2 || k == 3 { 1 } else { 0 },
    }
}

/// Z offset (0 or 1) of corner `k` of a quad of direction `d`.
pub open spec fn face_corner_dz(d: FaceDir, k: int) -> int {
    match d {
        FaceDir::XNeg => if k == 1 || k == 2 { 1 } else { 0 },
        FaceDir::XPos => if k == 0 || k == 3 { 1 } else { 0 },
        FaceDir::YNeg => if k == 2 || k == 3 { 1 } else { 0 },
        FaceDir::YPos => if k == 0 || k == 1 { 1 } else { 0 },
        FaceDir::ZNeg => 0,
        FaceDir::ZPos => 1,
        FaceDir::CrossA => if k == 1 || k == 2 { 1 } else { 0 },
        FaceDir::CrossB => if k == 1 || k == 2 { 1 } else { 0 },
    }
}

/// Texture u coordinate of corner `k`: the corners run (0,0), (1,0), (1,1),
/// (0,1).
pub open spec fn corner_u(k: int) -> u8 {
    if k == 1 || k == 2 {
        1
    } else {
        0
    }
}

/// Texture v coordinate of corner `k`.
pub open spec fn corner_v(k: int) -> u8 {
    if k == 2 || k == 3 {
        1
    } else {
        0
    }
}

/// The four vertices of the quad of direction `d` for the cell whose origin
/// corner sits at world coordinates `(wx, wy, wz)`, textured by `tid`, in
/// fixed outward winding.
pub open spec fn spec_face_quad(wx: int, wy: int, wz: int, tid: u32, d: FaceDir) -> Seq<Vertex> {
    Seq::new(
        4,
        |k: int| Vertex {
            x: (wx + face_corner_dx(d, k)) as i64,
            y: (wy + face_corner_dy(d, k)) as i64,
            z: (wz + face_corner_dz(d, k)) as i64,
            u: corner_u(k),
            v: corner_v(k),
            texture_id: tid,
            face: d,
        },
    )
}

/// Whether a cell obscures an adjacent solid (non-fluid) face: any non-empty,
/// non-fluid cell does.
pub open spec fn spec_obscures_solid(c: VoxelCell) -> bool {
    match c {
        VoxelCell::Empty => false,
        VoxelCell::BorderVisible(_) => true,
        VoxelCell::BorderVisibleFluid(_) => false,
        VoxelCell::AlwaysVisible(_) => true,
    }
}

/// Whether a cell obscures an adjacent fluid face: another fluid cell or a
/// solid cell does, emptiness and sprites do not.
pub open spec fn spec_obscures_fluid(c: VoxelCell) -> bool {
    match c {
        VoxelCell::Empty => false,
        VoxelCell::BorderVisible(_) => true,
        VoxelCell::BorderVisibleFluid(_) => true,
        VoxelCell::AlwaysVisible(_) => false,
    }
}

/// The obscuring test for a face: the fluid rule for fluid faces, the solid
/// rule otherwise.
pub open spec fn spec_obscures(c: VoxelCell, fluid: bool) -> bool {
    if fluid {
        spec_obscures_fluid(c)
    } else {
        spec_obscures_solid(c)
    }
}

/// Tests whether cell `c` obscures an adjacent face; `fluid` selects the
/// fluid rule.
pub fn obscures(c: VoxelCell, fluid: bool) -> (r: bool)
    ensures
        r == spec_obscures(c, fluid),
{
    if fluid {
        match c {
            VoxelCell::Empty => false,
            VoxelCell::BorderVisible(_) => true,
            VoxelCell::BorderVisibleFluid(_) => true,
            VoxelCell::AlwaysVisible(_) => false,
        }
    } else {
        match c {
            VoxelCell::Empty => false,
            VoxelCell::BorderVisible(_) => true,
            VoxelCell::BorderVisibleFluid(_) => false,
            VoxelCell::AlwaysVisible(_) => true,
        }
    }
}

/// Read-only access to the up-to-six face-adjacent neighbor chunks, already
/// resolved from the external chunk store. An absent neighbor is a valid
/// state (edge of the loaded world), not an error.
pub struct NeighborSet {
    /// Neighbor at x − 1, if loaded.
    pub x_neg: Option<Chunk>,
    /// Neighbor at x + 1, if loaded.
    pub x_pos: Option<Chunk>,
    /// Neighbor at y − 1, if loaded.
    pub y_neg: Option<Chunk>,
    /// Neighbor at y + 1, if loaded.
    pub y_pos: Option<Chunk>,
    /// Neighbor at z − 1, if loaded.
    pub z_neg: Option<Chunk>,
    /// Neighbor at z + 1, if loaded.
    pub z_pos: Option<Chunk>,
}

impl NeighborSet {
    /// The neighbor a face of direction `d` crosses into.
    pub open spec fn spec_at(self, d: FaceDir) -> Option<Chunk> {
        match d {
            FaceDir::XNeg => self.x_neg,
            FaceDir::XPos => self.x_pos,
            FaceDir::YNeg => self.y_neg,
            FaceDir::YPos => self.y_pos,
            FaceDir::ZNeg => self.z_neg,
            FaceDir::ZPos => self.z_pos,
            FaceDir::CrossA => None,
            FaceDir::CrossB => None,
        }
    }

    /// A neighbor set fits a chunk when every present neighbor is well
    /// formed, has the chunk's side length, and stands at the face-adjacent
    /// lattice position.
    pub open spec fn wf_for(self, c: Chunk) -> bool {
        forall|d: FaceDir| match #[trigger] self.spec_at(d) {
            Some(n) => {
                &&& n.wf()
                &&& n.size == c.size
                &&& n.position.x as int == c.position.x + dir_dx(d)
                &&& n.position.y as int == c.position.y + dir_dy(d)
                &&& n.position.z as int == c.position.z + dir_dz(d)
            },
            None => true,
        }
    }
}

/// A local coordinate stepped over the chunk border, wrapped to the opposite
/// face of the adjacent chunk.
pub open spec fn wrap_coord(size: int, c: int) -> int {
    if c < 0 {
        size - 1
    } else if c >= size {
        0
    } else {
        c
    }
}

/// Whether the face of direction `d` of the cell at `(x, y, z)` is emitted.
///
/// An in-chunk neighbor cell decides by the obscuring test. A face leaving
/// the chunk is culled for fluid always; for solid faces it is culled when
/// the adjacent chunk is absent, and otherwise decided by the obscuring test
/// on the adjacent chunk's wrapped boundary cell.
pub open spec fn spec_face_emitted(
    chunk: Chunk,
    nb: NeighborSet,
    x: int,
    y: int,
    z: int,
    d: FaceDir,
    fluid: bool,
) -> bool {
    let size = chunk.size as int;
    let nx = x + dir_dx(d);
    let ny = y + dir_dy(d);
    let nz = z + dir_dz(d);
    if 0 <= nx < size && 0 <= ny < size && 0 <= nz < size {
        !spec_obscures(chunk.spec_cell(nx, ny, nz), fluid)
    } else if fluid {
        false
    } else {
        match nb.spec_at(d) {
            Some(n) => !spec_obscures(
                n.spec_cell(wrap_coord(size, nx), wrap_coord(size, ny), wrap_coord(size, nz)),
                fluid,
            ),
            None => false,
        }
    }
}

/// Bound on the magnitude of a world coordinate a chunk's cells can reach:
/// `|position| ≤ 2³¹` chunk units of side at most 64 stay well inside it.
pub const WORLD_COORD_LIMIT: i64 = 0x40_0000_0000;

/// World coordinate (in block units) of local coordinate `local` in a chunk
/// whose origin lattice coordinate on this axis is `p`.
pub open spec fn spec_world_coord(p: i32, size: int, local: int) -> int {
    p * size + local
}

/// Outward step of an axis face direction, as executable offsets.
fn dir_step(d: FaceDir) -> (r: (i64, i64, i64))
    ensures
        r.0 == dir_dx(d),
        r.1 == dir_dy(d),
        r.2 == dir_dz(d),
{
    match d {
        FaceDir::XNeg => (-1, 0, 0),
        FaceDir::XPos => (1, 0, 0),
        FaceDir::YNeg => (0, -1, 0),
        FaceDir::YPos => (0, 1, 0),
        FaceDir::ZNeg => (0, 0, -1),
        FaceDir::ZPos => (0, 0, 1),
        FaceDir::CrossA => (0, 0, 0),
        FaceDir::CrossB => (0, 0, 0),
    }
}

/// Offsets of corner `k` of a quad of direction `d` from the cell's origin
/// corner.
fn corner(d: FaceDir, k: usize) -> (r: (i64, i64, i64))
    requires
        k < 4,
    ensures
        r.0 == face_corner_dx(d, k as int),
        r.1 == face_corner_dy(d, k as int),
        r.2 == face_corner_dz(d, k as int),
{
    let dx: i64 = match d {
        FaceDir::XNeg => 0,
        FaceDir::XPos => 1,
        FaceDir::YNeg | FaceDir::YPos | FaceDir::ZPos | FaceDir::CrossA => if k == 1 || k == 2 {
            1
        } else {
            0
        },
        FaceDir::ZNeg | FaceDir::CrossB => if k == 0 || k == 3 {
            1
        } else {
            0
        },
    };
    let dy: i64 = match d {
        FaceDir::YNeg => 0,
        FaceDir::YPos => 1,
        _ => if k == 2 || k == 3 {
            1
        } else {
            0
        },
    };
    let dz: i64 = match d {
        FaceDir::XNeg | FaceDir::CrossA | FaceDir::CrossB => if k == 1 || k == 2 {
            1
        } else {
            0
        },
        FaceDir::XPos => if k == 0 || k == 3 {
            1
        } else {
            0
        },
        FaceDir::YNeg => if k == 2 || k == 3 {
            1
        } else {
            0
        },
        FaceDir::YPos => if k == 0 || k == 1 {
            1
        } else {
            0
        },
        FaceDir::ZNeg => 0,
        FaceDir::ZPos => 1,
    };
    (dx, dy, dz)
}

/// Appends the four vertices of one quad of direction `d` for the cell at
/// world coordinates `(wx, wy, wz)`.
fn push_quad(out: &mut Vec<Vertex>, wx: i64, wy: i64, wz: i64, tid: u32, d: FaceDir)
    requires
        -WORLD_COORD_LIMIT <= wx <= WORLD_COORD_LIMIT,
        -WORLD_COORD_LIMIT <= wy <= WORLD_COORD_LIMIT,
        -WORLD_COORD_LIMIT <= wz <= WORLD_COORD_LIMIT,
    ensures
        final(out)@ == old(out)@ + spec_face_quad(wx as int, wy as int, wz as int, tid, d),
{
    let c0 = corner(d, 0);
    out.push(Vertex { x: wx + c0.0, y: wy + c0.1, z: wz + c0.2, u: 0, v: 0, texture_id: tid, face: d });
    let c1 = corner(d, 1);
    out.push(Vertex { x: wx + c1.0, y: wy + c1.1, z: wz + c1.2, u: 1, v: 0, texture_id: tid, face: d });
    let c2 = corner(d, 2);
    out.push(Vertex { x: wx + c2.0, y: wy + c2.1, z: wz + c2.2, u: 1, v: 1, texture_id: tid, face: d });
    let c3 = corner(d, 3);
    out.push(Vertex { x: wx + c3.0, y: wy + c3.1, z: wz + c3.2, u: 0, v: 1, texture_id: tid, face: d });
    proof {
        assert(out@ =~= old(out)@ + spec_face_quad(wx as int, wy as int, wz as int, tid, d));
    }
}

/// Decides whether the face of direction `d` of the cell at local
/// coordinates `(x, y, z)` is emitted, resolving faces that leave the chunk
/// through the neighbor set.
pub fn face_emitted(
    chunk: &Chunk,
    nb: &NeighborSet,
    x: u32,
    y: u32,
    z: u32,
    d: FaceDir,
    fluid: bool,
) -> (r: bool)
    requires
        chunk.wf(),
        nb.wf_for(*chunk),
        x < chunk.size,
        y < chunk.size,
        z < chunk.size,
        is_axis_dir(d),
    ensures
        r == spec_face_emitted(*chunk, *nb, x as int, y as int, z as int, d, fluid),
{
    let size = chunk.size;
    let step = dir_step(d);
    let nx = x as i64 + step.0;
    let ny = y as i64 + step.1;
    let nz = z as i64 + step.2;
    if 0 <= nx && nx < size as i64 && 0 <= ny && ny < size as i64 && 0 <= nz && nz < size as i64 {
        !obscures(chunk.cell(nx as u32, ny as u32, nz as u32), fluid)
    } else if fluid {
        false
    } else {
        let n: &Option<Chunk> = match d {
            FaceDir::XNeg => &nb.x_neg,
            FaceDir::XPos => &nb.x_pos,
            FaceDir::YNeg => &nb.y_neg,
            FaceDir::YPos => &nb.y_pos,
            FaceDir::ZNeg => &nb.z_neg,
            FaceDir::ZPos => &nb.z_pos,
            FaceDir::CrossA => &nb.x_neg,
            FaceDir::CrossB => &nb.x_neg,
        };
        proof {
            assert(*n == nb.spec_at(d));
        }
        match n {
            Some(nc) => {
                let wxc = wrap(size, nx);
                let wyc = wrap(size, ny);
                let wzc = wrap(size, nz);
                !obscures(nc.cell(wxc, wyc, wzc), fluid)
            },
            None => false,
        }
    }
}

/// Wraps a stepped local coordinate to the opposite face of the adjacent
/// chunk.
fn wrap(size: u32, c: i64) -> (r: u32)
    requires
        1 <= size,
        -1 <= c <= size as i64,
    ensures
        r as int == wrap_coord(size as int, c as int),
        r < size,
{
    if c < 0 {
        size - 1
    } else if c >= size as i64 {
        0
    } else {
        c as u32
    }
}

/// One face's contribution to a cell's mesh: the quad if the face is
/// emitted, nothing if it is culled.
pub open spec fn spec_face_part(
    chunk: Chunk,
    nb: NeighborSet,
    x: int,
    y: int,
    z: int,
    tid: u32,
    d: FaceDir,
    fluid: bool,
) -> Seq<Vertex> {
    let size = chunk.size as int;
    if spec_face_emitted(chunk, nb, x, y, z, d, fluid) {
        spec_face_quad(
            spec_world_coord(chunk.position.x, size, x),
            spec_world_coord(chunk.position.y, size, y),
            spec_world_coord(chunk.position.z, size, z),
            tid,
            d,
        )
    } else {
        Seq::empty()
    }
}

/// The mesh of a cube-shaped (or fluid) cell: its six face parts in fixed
/// direction order.
pub open spec fn spec_cube_faces(
    chunk: Chunk,
    nb: NeighborSet,
    x: int,
    y: int,
    z: int,
    tid: u32,
    fluid: bool,
) -> Seq<Vertex> {
    spec_face_part(chunk, nb, x, y, z, tid, FaceDir::XNeg, fluid)
        + spec_face_part(chunk, nb, x, y, z, tid, FaceDir::XPos, fluid)
        + spec_face_part(chunk, nb, x, y, z, tid, FaceDir::YNeg, fluid)
        + spec_face_part(chunk, nb, x, y, z, tid, FaceDir::YPos, fluid)
        + spec_face_part(chunk, nb, x, y, z, tid, FaceDir::ZNeg, fluid)
        + spec_face_part(chunk, nb, x, y, z, tid, FaceDir::ZPos, fluid)
}

/// The fixed mesh of a cross-sprite cell: two diagonal quads, never culled.
pub open spec fn spec_cross_mesh(chunk: Chunk, x: int, y: int, z: int, tid: u32) -> Seq<Vertex> {
    let size = chunk.size as int;
    let wx = spec_world_coord(chunk.position.x, size, x);
    let wy = spec_world_coord(chunk.position.y, size, y);
    let wz = spec_world_coord(chunk.position.z, size, z);
    spec_face_quad(wx, wy, wz, tid, FaceDir::CrossA) + spec_face_quad(wx, wy, wz, tid, FaceDir::CrossB)
}

/// The full mesh contribution of the cell at `(x, y, z)`: nothing for air,
/// occlusion-culled cube faces for solid and fluid cells, the fixed cross
/// mesh for always-visible cells.
pub open spec fn spec_cell_mesh(chunk: Chunk, nb: NeighborSet, x: int, y: int, z: int) -> Seq<Vertex> {
    match chunk.spec_cell(x, y, z) {
        VoxelCell::Empty => Seq::empty(),
        VoxelCell::BorderVisible(b) => spec_cube_faces(
            chunk,
            nb,
            x,
            y,
            z,
            spec_block_properties(b).texture_id,
            false,
        ),
        VoxelCell::BorderVisibleFluid(b) => spec_cube_faces(
            chunk,
            nb,
            x,
            y,
            z,
            spec_block_properties(b).texture_id,
            true,
        ),
        VoxelCell::AlwaysVisible(b) => spec_cross_mesh(
            chunk,
            x,
            y,
            z,
            spec_block_properties(b).texture_id,
        ),
    }
}

/// Appends the six occlusion-tested face parts of a cube-shaped or fluid
/// cell, in fixed direction order.
#[verifier::rlimit(60)]
fn push_cube_faces(
    out: &mut Vec<Vertex>,
    chunk: &Chunk,
    nb: &NeighborSet,
    x: u32,
    y: u32,
    z: u32,
    wx: i64,
    wy: i64,
    wz: i64,
    tid: u32,
    fluid: bool,
)
    requires
        chunk.wf(),
        nb.wf_for(*chunk),
        x < chunk.size,
        y < chunk.size,
        z < chunk.size,
        wx as int == spec_world_coord(chunk.position.x, chunk.size as int, x as int),
        wy as int == spec_world_coord(chunk.position.y, chunk.size as int, y as int),
        wz as int == spec_world_coord(chunk.position.z, chunk.size as int, z as int),
        -WORLD_COORD_LIMIT <= wx <= WORLD_COORD_LIMIT,
        -WORLD_COORD_LIMIT <= wy <= WORLD_COORD_LIMIT,
        -WORLD_COORD_LIMIT <= wz <= WORLD_COORD_LIMIT,
    ensures
        final(out)@ == old(out)@ + spec_cube_faces(
            *chunk,
            *nb,
            x as int,
            y as int,
            z as int,
            tid,
            fluid,
        ),
{
    let ghost xi = x as int;
    let ghost yi = y as int;
    let ghost zi = z as int;
    let ghost p0 = spec_face_part(*chunk, *nb, xi, yi, zi, tid, FaceDir::XNeg, fluid);
    let ghost p1 = spec_face_part(*chunk, *nb, xi, yi, zi, tid, FaceDir::XPos, fluid);
    let ghost p2 = spec_face_part(*chunk, *nb, xi, yi, zi, tid, FaceDir::YNeg, fluid);
    let ghost p3 = spec_face_part(*chunk, *nb, xi, yi, zi, tid, FaceDir::YPos, fluid);
    let ghost p4 = spec_face_part(*chunk, *nb, xi, yi, zi, tid, FaceDir::ZNeg, fluid);
    let ghost p5 = spec_face_part(*chunk, *nb, xi, yi, zi, tid, FaceDir::ZPos, fluid);
    let ghost v0 = out@;
    if face_emitted(chunk, nb, x, y, z, FaceDir::XNeg, fluid) {
        push_quad(out, wx, wy, wz, tid, FaceDir::XNeg);
    } else {
        proof {
            assert(out@ =~= v0 + p0);
        }
    }
    let ghost v1 = out@;
    proof {
        assert(v1 == v0 + p0);
    }
    if face_emitted(chunk, nb, x, y, z, FaceDir::XPos, fluid) {
        push_quad(out, wx, wy, wz, tid, FaceDir::XPos);
    } else {
        proof {
            assert(out@ =~= v1 + p1);
        }
    }
    let ghost v2 = out@;
    proof {
        assert(v2 == v1 + p1);
    }
    if face_emitted(chunk, nb, x, y, z, FaceDir::YNeg, fluid) {
        push_quad(out, wx, wy, wz, tid, FaceDir::YNeg);
    } else {
        proof {
            assert(out@ =~= v2 + p2);
        }
    }
    let ghost v3 = out@;
    proof {
        assert(v3 == v2 + p2);
    }
    if face_emitted(chunk, nb, x, y, z, FaceDir::YPos, fluid) {
        push_quad(out, wx, wy, wz, tid, FaceDir::YPos);
    } else {
        proof {
            assert(out@ =~= v3 + p3);
        }
    }
    let ghost v4 = out@;
    proof {
        assert(v4 == v3 + p3);
    }
    if face_emitted(chunk, nb, x, y, z, FaceDir::ZNeg, fluid) {
        push_quad(out, wx, wy, wz, tid, FaceDir::ZNeg);
    } else {
        proof {
            assert(out@ =~= v4 + p4);
        }
    }
    let ghost v5 = out@;
    proof {
        assert(v5 == v4 + p4);
    }
    if face_emitted(chunk, nb, x, y, z, FaceDir::ZPos, fluid) {
        push_quad(out, wx, wy, wz, tid, FaceDir::ZPos);
    } else {
        proof {
            assert(out@ =~= v5 + p5);
        }
    }
    proof {
        assert(out@ == v5 + p5);
        lemma_concat_associative(v0, p0, p1);
        lemma_concat_associative(v0, p0 + p1, p2);
        lemma_concat_associative(v0, p0 + p1 + p2, p3);
        lemma_concat_associative(v0, p0 + p1 + p2 + p3, p4);
        lemma_concat_associative(v0, p0 + p1 + p2 + p3 + p4, p5);
        assert(out@ == v0 + spec_cube_faces(*chunk, *nb, xi, yi, zi, tid, fluid));
    }
}

/// Builds the mesh contribution of the cell at local coordinates
/// `(x, y, z)`: an empty sequence for air, the occlusion-tested cube faces
/// for solid and fluid cells, and the two fixed diagonal quads for
/// always-visible cells.
#[verifier::rlimit(60)]
pub fn cell_quads(chunk: &Chunk, nb: &NeighborSet, x: u32, y: u32, z: u32) -> (r: Vec<Vertex>)
    requires
        chunk.wf(),
        nb.wf_for(*chunk),
        x < chunk.size,
        y < chunk.size,
        z < chunk.size,
    ensures
        r@ == spec_cell_mesh(*chunk, *nb, x as int, y as int, z as int),
        r@.len() % 4 == 0,
        r@.len() <= 24,
{
    let size = chunk.size;
    proof {
        assert(-0x20_0000_0000 <= (chunk.position.x as int) * (size as int) <= 0x20_0000_0000
            && -0x20_0000_0000 <= (chunk.position.y as int) * (size as int) <= 0x20_0000_0000
            && -0x20_0000_0000 <= (chunk.position.z as int) * (size as int) <= 0x20_0000_0000)
            by (nonlinear_arith)
            requires
                -0x8000_0000 <= (chunk.position.x as int) <= 0x7fff_ffff,
                -0x8000_0000 <= (chunk.position.y as int) <= 0x7fff_ffff,
                -0x8000_0000 <= (chunk.position.z as int) <= 0x7fff_ffff,
                1 <= (size as int) <= 64,
        ;
    }
    let wx = chunk.position.x as i64 * size as i64 + x as i64;
    let wy = chunk.position.y as i64 * size as i64 + y as i64;
    let wz = chunk.position.z as i64 * size as i64 + z as i64;
    let mut out: Vec<Vertex> = Vec::new();
    match chunk.cell(x, y, z) {
        VoxelCell::Empty => {},
        VoxelCell::BorderVisible(b) => {
            let props = block_properties(b);
            push_cube_faces(&mut out, chunk, nb, x, y, z, wx, wy, wz, props.texture_id, false);
        },
        VoxelCell::BorderVisibleFluid(b) => {
            let props = block_properties(b);
            push_cube_faces(&mut out, chunk, nb, x, y, z, wx, wy, wz, props.texture_id, true);
        },
        VoxelCell::AlwaysVisible(b) => {
            let props = block_properties(b);
            push_quad(&mut out, wx, wy, wz, props.texture_id, FaceDir::CrossA);
            push_quad(&mut out, wx, wy, wz, props.texture_id, FaceDir::CrossB);
            proof {
                assert(out@ =~= spec_cross_mesh(
                    *chunk,
                    x as int,
                    y as int,
                    z as int,
                    props.texture_id,
                ));
            }
        },
    }
    out
}

/// The transparency class the cell's geometry is emitted into, if any.
pub open spec fn spec_cell_class(chunk: Chunk, x: int, y: int, z: int) -> Option<Transparency> {
    match chunk.spec_cell(x, y, z) {
        VoxelCell::Empty => None,
        VoxelCell::BorderVisible(b) => Some(spec_block_properties(b).transparency),
        VoxelCell::BorderVisibleFluid(b) => Some(spec_block_properties(b).transparency),
        VoxelCell::AlwaysVisible(b) => Some(spec_block_properties(b).transparency),
    }
}

/// Triangle-list indices of quad number `q`: two triangles with fixed
/// winding over the quad's four vertices.
pub open spec fn spec_quad_indices(q: int) -> Seq<u32> {
    seq![
        (4 * q) as u32,
        (4 * q + 1) as u32,
        (4 * q + 2) as u32,
        (4 * q + 2) as u32,
        (4 * q + 3) as u32,
        (4 * q) as u32,
    ]
}

/// The dense zero-based index stream for `nq` quads.
pub open spec fn spec_indices(nq: int) -> Seq<u32>
    decreases nq,
{
    if nq <= 0 {
        Seq::empty()
    } else {
        spec_indices(nq - 1) + spec_quad_indices(nq - 1)
    }
}

/// The dense index stream for `nq` quads has six entries per quad, each
/// below the quad vertex count `4·nq`.
pub proof fn lemma_indices_in_bounds(nq: int)
    requires
        0 <= nq,
        4 * nq <= u32::MAX,
    ensures
        spec_indices(nq).len() == 6 * nq,
        forall|k: int| 0 <= k < 6 * nq ==> (#[trigger] spec_indices(nq)[k]) < 4 * nq,
    decreases nq,
{
    if nq > 0 {
        lemma_indices_in_bounds(nq - 1);
        assert forall|k: int| 0 <= k < 6 * nq implies (#[trigger] spec_indices(nq)[k]) < 4
            * nq by {
            if k < 6 * (nq - 1) {
                assert(spec_indices(nq)[k] == spec_indices(nq - 1)[k]);
            } else {
                assert(spec_indices(nq)[k] == spec_quad_indices(nq - 1)[k - 6 * (nq - 1)]);
            }
        }
    }
}

/// One transparency class's stream: vertices and triangle-list indices.
#[derive(Debug)]
pub struct MeshStream {
    /// The stream's vertices, four per emitted quad.
    pub vertices: Vec<Vertex>,
    /// Triangle-list indices into `vertices`, six per emitted quad.
    pub indices: Vec<u32>,
}

impl MeshStream {
    /// A valid triangle list: whole quads only, and every index points into
    /// the vertex sequence.
    pub open spec fn valid(self) -> bool {
        &&& self.vertices@.len() % 4 == 0
        &&& forall|k: int|
            0 <= k < self.indices@.len() ==> (#[trigger] self.indices@[k]) < self.vertices@.len()
    }

    /// The dense per-chunk form: the indices are exactly the fixed pattern
    /// for the stream's quad count, zero-based.
    pub open spec fn dense(self) -> bool {
        &&& self.vertices@.len() % 4 == 0
        &&& self.indices@ == spec_indices(self.vertices@.len() as int / 4)
    }
}

/// A dense stream's indices are valid.
pub proof fn lemma_dense_is_valid(s: MeshStream)
    requires
        s.dense(),
        s.vertices@.len() <= u32::MAX,
    ensures
        s.valid(),
{
    let nq = s.vertices@.len() as int / 4;
    vstd::arithmetic::div_mod::lemma_fundamental_div_mod(s.vertices@.len() as int, 4);
    lemma_indices_in_bounds(nq);
}

/// The three per-chunk mesh streams, one per transparency class. The classes
/// share no vertices and no index space, so each can form an independent
/// draw call.
#[derive(Debug)]
pub struct ChunkMesh {
    /// Geometry of opaque blocks.
    pub opaque: MeshStream,
    /// Geometry of alpha-tested blocks such as sprites.
    pub transparent: MeshStream,
    /// Geometry of blended blocks such as water.
    pub translucent: MeshStream,
}

impl ChunkMesh {
    /// All three streams are dense, zero-based triangle lists.
    pub open spec fn dense(self) -> bool {
        self.opaque.dense() && self.transparent.dense() && self.translucent.dense()
    }

    /// All three streams are valid triangle lists.
    pub open spec fn valid(self) -> bool {
        self.opaque.valid() && self.transparent.valid() && self.translucent.valid()
    }
}

/// Appends whole quads to a dense stream, keeping it dense: four vertices
/// and six pattern indices per quad.
fn append_quads(stream: &mut MeshStream, quads: &Vec<Vertex>)
    requires
        quads@.len() % 4 == 0,
        old(stream).dense(),
        old(stream).vertices@.len() + quads@.len() <= 0x100_0000,
    ensures
        final(stream).vertices@ == old(stream).vertices@ + quads@,
        final(stream).indices@ == spec_indices(final(stream).vertices@.len() as int / 4),
        final(stream).dense(),
{
    let ghost base_v = stream.vertices@;
    let ghost base_i = stream.indices@;
    let start = stream.vertices.len();
    let mut k: usize = 0;
    while k < quads.len()
        invariant
            k <= quads@.len(),
            stream.vertices@ == base_v + quads@.take(k as int),
            stream.indices@ == base_i,
        decreases quads@.len() - k,
    {
        let v = quads[k];
        stream.vertices.push(v);
        k = k + 1;
        proof {
            assert(stream.vertices@ =~= base_v + quads@.take(k as int));
        }
    }
    proof {
        assert(quads@.take(quads@.len() as int) == quads@);
        assert(stream.vertices@ == base_v + quads@);
        vstd::arithmetic::div_mod::lemma_fundamental_div_mod(base_v.len() as int, 4);
        vstd::arithmetic::div_mod::lemma_fundamental_div_mod(stream.vertices@.len() as int, 4);
    }
    let end_q = stream.vertices.len() / 4;
    let mut q = start / 4;
    proof {
        assert(4 * (start as int / 4) == start as int);
        assert(4 * (end_q as int) == stream.vertices@.len());
    }
    while q < end_q
        invariant
            q <= end_q,
            stream.vertices@ == base_v + quads@,
            4 * (end_q as int) == stream.vertices@.len(),
            stream.vertices@.len() <= 0x100_0000,
            stream.indices@ == spec_indices(q as int),
        decreases end_q - q,
    {
        let b = (q * 4) as u32;
        stream.indices.push(b);
        stream.indices.push(b + 1);
        stream.indices.push(b + 2);
        stream.indices.push(b + 2);
        stream.indices.push(b + 3);
        stream.indices.push(b);
        q = q + 1;
        proof {
            assert(stream.indices@ =~= spec_indices(q as int));
        }
    }
}

/// The vertices the cell at flat index `i` contributes to the stream of
/// class `tc`: its whole mesh if its block is of that class, nothing
/// otherwise.
pub open spec fn spec_cell_stream_verts(
    chunk: Chunk,
    nb: NeighborSet,
    i: int,
    tc: Transparency,
) -> Seq<Vertex> {
    let size = chunk.size as int;
    let x = crate::chunk::idx_x(size, i);
    let y = crate::chunk::idx_y(size, i);
    let z = crate::chunk::idx_z(size, i);
    if spec_cell_class(chunk, x, y, z) == Some(tc) {
        spec_cell_mesh(chunk, nb, x, y, z)
    } else {
        Seq::empty()
    }
}

/// The stream vertices contributed by the first `n` cells, in flat index
/// order.
pub open spec fn spec_stream_verts_up_to(
    chunk: Chunk,
    nb: NeighborSet,
    tc: Transparency,
    n: int,
) -> Seq<Vertex>
    decreases n,
{
    if n <= 0 {
        Seq::empty()
    } else {
        spec_stream_verts_up_to(chunk, nb, tc, n - 1) + spec_cell_stream_verts(chunk, nb, n - 1, tc)
    }
}

/// The full vertex stream of class `tc` for a chunk: every cell's
/// contribution in flat index order.
pub open spec fn spec_stream_verts(chunk: Chunk, nb: NeighborSet, tc: Transparency) -> Seq<Vertex> {
    let size = chunk.size as int;
    spec_stream_verts_up_to(chunk, nb, tc, size * size * size)
}

/// Builds the three mesh streams of a chunk, resolving boundary faces
/// through its up-to-six neighbors.
///
/// Every stream is pinned to a pure function of the chunk and its neighbor
/// state: the vertices are each cell's contribution in flat index order, and
/// the indices are the dense zero-based quad pattern, so meshing the same
/// chunk against the same neighbor state twice yields identical streams.
pub fn build(chunk: &Chunk, nb: &NeighborSet) -> (m: ChunkMesh)
    requires
        chunk.wf(),
        nb.wf_for(*chunk),
    ensures
        m.opaque.vertices@ == spec_stream_verts(*chunk, *nb, Transparency::Opaque),
        m.transparent.vertices@ == spec_stream_verts(*chunk, *nb, Transparency::Transparent),
        m.translucent.vertices@ == spec_stream_verts(*chunk, *nb, Transparency::Translucent),
        m.dense(),
        m.valid(),
{
    let s = chunk.size as usize;
    let ghost si = s as int;
    proof {
        assert(si * si <= 4096 && si * si * si <= 262144) by (nonlinear_arith)
            requires
                1 <= si <= 64,
        ;
    }
    let ss = s * s;
    let total = ss * s;
    let mut opaque = MeshStream { vertices: Vec::new(), indices: Vec::new() };
    let mut transparent = MeshStream { vertices: Vec::new(), indices: Vec::new() };
    let mut translucent = MeshStream { vertices: Vec::new(), indices: Vec::new() };
    let mut i: usize = 0;
    while i < total
        invariant
            chunk.wf(),
            nb.wf_for(*chunk),
            1 <= s <= 64,
            si == s as int,
            si == chunk.size as int,
            ss as int == si * si,
            total as int == si * si * si,
            total <= 262144,
            i <= total,
            opaque.vertices@ == spec_stream_verts_up_to(*chunk, *nb, Transparency::Opaque, i as int),
            transparent.vertices@ == spec_stream_verts_up_to(
                *chunk,
                *nb,
                Transparency::Transparent,
                i as int,
            ),
            translucent.vertices@ == spec_stream_verts_up_to(
                *chunk,
                *nb,
                Transparency::Translucent,
                i as int,
            ),
            opaque.dense(),
            transparent.dense(),
            translucent.dense(),
            opaque.vertices@.len() <= 24 * i,
            transparent.vertices@.len() <= 24 * i,
            translucent.vertices@.len() <= 24 * i,
        decreases total - i,
    {
        let x = i / ss;
        let rem = i % ss;
        let y = rem / s;
        let z = rem % s;
        let ghost ii = i as int;
        proof {
            lemma_fundamental_div_mod(ii, si * si);
            lemma_mod_bound(ii, si * si);
            lemma_fundamental_div_mod(rem as int, si);
            lemma_mod_bound(rem as int, si);
            assert((x as int) < si) by (nonlinear_arith)
                requires
                    1 <= si,
                    0 <= ii < si * si * si,
                    ii == (si * si) * (x as int) + (rem as int),
                    0 <= (rem as int) < si * si,
            ;
            assert((y as int) < si) by (nonlinear_arith)
                requires
                    1 <= si,
                    (rem as int) < si * si,
                    rem as int == si * (y as int) + (z as int),
                    0 <= y as int,
                    0 <= (z as int) < si,
            ;
            assert(crate::chunk::idx_x(si, ii) == x as int);
            assert(crate::chunk::idx_y(si, ii) == y as int);
            assert(crate::chunk::idx_z(si, ii) == z as int);
        }
        let xu = x as u32;
        let yu = y as u32;
        let zu = z as u32;
        let quads = cell_quads(chunk, nb, xu, yu, zu);
        let cell = chunk.cell(xu, yu, zu);
        let class_opt: Option<Transparency> = match cell {
            VoxelCell::Empty => None,
            VoxelCell::BorderVisible(b) => Some(block_properties(b).transparency),
            VoxelCell::BorderVisibleFluid(b) => Some(block_properties(b).transparency),
            VoxelCell::AlwaysVisible(b) => Some(block_properties(b).transparency),
        };
        proof {
            assert(class_opt == spec_cell_class(*chunk, x as int, y as int, z as int));
        }
        match class_opt {
            None => {
                proof {
                    assert(opaque.vertices@ =~= spec_stream_verts_up_to(
                        *chunk,
                        *nb,
                        Transparency::Opaque,
                        ii + 1,
                    ));
                    assert(transparent.vertices@ =~= spec_stream_verts_up_to(
                        *chunk,
                        *nb,
                        Transparency::Transparent,
                        ii + 1,
                    ));
                    assert(translucent.vertices@ =~= spec_stream_verts_up_to(
                        *chunk,
                        *nb,
                        Transparency::Translucent,
                        ii + 1,
                    ));
                }
            },
            Some(Transparency::Opaque) => {
                append_quads(&mut opaque, &quads);
                proof {
                    assert(quads@ == spec_cell_stream_verts(*chunk, *nb, ii, Transparency::Opaque));
                    assert(transparent.vertices@ =~= spec_stream_verts_up_to(
                        *chunk,
                        *nb,
                        Transparency::Transparent,
                        ii + 1,
                    ));
                    assert(translucent.vertices@ =~= spec_stream_verts_up_to(
                        *chunk,
                        *nb,
                        Transparency::Translucent,
                        ii + 1,
                    ));
                }
            },
            Some(Transparency::Transparent) => {
                append_quads(&mut transparent, &quads);
                proof {
                    assert(quads@ == spec_cell_stream_verts(
                        *chunk,
                        *nb,
                        ii,
                        Transparency::Transparent,
                    ));
                    assert(opaque.vertices@ =~= spec_stream_verts_up_to(
                        *chunk,
                        *nb,
                        Transparency::Opaque,
                        ii + 1,
                    ));
                    assert(translucent.vertices@ =~= spec_stream_verts_up_to(
                        *chunk,
                        *nb,
                        Transparency::Translucent,
                        ii + 1,
                    ));
                }
            },
            Some(Transparency::Translucent) => {
                append_quads(&mut translucent, &quads);
                proof {
                    assert(quads@ == spec_cell_stream_verts(
                        *chunk,
                        *nb,
                        ii,
                        Transparency::Translucent,
                    ));
                    assert(opaque.vertices@ =~= spec_stream_verts_up_to(
                        *chunk,
                        *nb,
                        Transparency::Opaque,
                        ii + 1,
                    ));
                    assert(transparent.vertices@ =~= spec_stream_verts_up_to(
                        *chunk,
                        *nb,
                        Transparency::Transparent,
                        ii + 1,
                    ));
                }
            },
        }
        i = i + 1;
    }
    proof {
        lemma_dense_is_valid(opaque);
        lemma_dense_is_valid(transparent);
        lemma_dense_is_valid(translucent);
    }
    ChunkMesh { opaque, transparent, translucent }
}

/// Whether the face of direction `d` of the cell at `(x, y, z)` leaves the
/// chunk.
pub open spec fn spec_face_exits_chunk(chunk: Chunk, x: int, y: int, z: int, d: FaceDir) -> bool {
    let size = chunk.size as int;
    !(0 <= x + dir_dx(d) < size && 0 <= y + dir_dy(d) < size && 0 <= z + dir_dz(d) < size)
}

/// Law: conservative boundary culling. A face that leaves the chunk in a
/// direction whose neighbor chunk is not loaded is never emitted, whatever
/// the mesh rule — an unloaded neighbor is a culling signal, not an error.
pub proof fn lemma_boundary_culled_without_neighbor(
    chunk: Chunk,
    nb: NeighborSet,
    x: int,
    y: int,
    z: int,
    d: FaceDir,
    fluid: bool,
)
    requires
        spec_face_exits_chunk(chunk, x, y, z, d),
        nb.spec_at(d) == None::<Chunk>,
    ensures
        !spec_face_emitted(chunk, nb, x, y, z, d, fluid),
{
}

/// Law: boundary culling with a loaded neighbor. A solid face that leaves
/// the chunk is emitted exactly when the neighbor's wrapped boundary cell
/// does not obscure it: culled against an opaque cell, emitted against an
/// empty one.
pub proof fn lemma_boundary_neighbor_decides(
    chunk: Chunk,
    nb: NeighborSet,
    x: int,
    y: int,
    z: int,
    d: FaceDir,
    n: Chunk,
)
    requires
        spec_face_exits_chunk(chunk, x, y, z, d),
        nb.spec_at(d) == Some(n),
    ensures
        spec_face_emitted(chunk, nb, x, y, z, d, false) == !spec_obscures_solid(
            n.spec_cell(
                wrap_coord(chunk.size as int, x + dir_dx(d)),
                wrap_coord(chunk.size as int, y + dir_dy(d)),
                wrap_coord(chunk.size as int, z + dir_dz(d)),
            ),
        ),
{
}

/// Law: fluid faces never cross a chunk border. A fluid face that leaves the
/// chunk is culled even when the neighbor chunk is loaded.
pub proof fn lemma_fluid_boundary_culled(
    chunk: Chunk,
    nb: NeighborSet,
    x: int,
    y: int,
    z: int,
    d: FaceDir,
)
    requires
        spec_face_exits_chunk(chunk, x, y, z, d),
    ensures
        !spec_face_emitted(chunk, nb, x, y, z, d, true),
{
}

/// Law: transparency separation. A cell contributes its geometry to at most
/// one transparency stream: of two distinct classes, at least one receives
/// nothing from the cell.
pub proof fn lemma_streams_disjoint(
    chunk: Chunk,
    nb: NeighborSet,
    i: int,
    t1: Transparency,
    t2: Transparency,
)
    requires
        t1 != t2,
    ensures
        spec_cell_stream_verts(chunk, nb, i, t1) == Seq::<Vertex>::empty()
            || spec_cell_stream_verts(chunk, nb, i, t2) == Seq::<Vertex>::empty(),
{
}

/// In a chunk whose only non-empty cell is `target`, the first `n` cells
/// contribute nothing but `target`'s own mesh, and that only to its class's
/// stream once `n` has passed it.
proof fn lemma_single_cell_stream_prefix(
    chunk: Chunk,
    nb: NeighborSet,
    tc: Transparency,
    target: int,
    n: int,
)
    requires
        chunk.wf(),
        0 <= target < chunk.size * chunk.size * chunk.size,
        forall|i: int|
            0 <= i < chunk.voxels@.len() && i != target ==> chunk.voxels@[i] == VoxelCell::Empty,
        0 <= n <= chunk.size * chunk.size * chunk.size,
    ensures
        spec_stream_verts_up_to(chunk, nb, tc, n) == (if n > target && spec_cell_class(
            chunk,
            idx_x(chunk.size as int, target),
            idx_y(chunk.size as int, target),
            idx_z(chunk.size as int, target),
        ) == Some(tc) {
            spec_cell_mesh(
                chunk,
                nb,
                idx_x(chunk.size as int, target),
                idx_y(chunk.size as int, target),
                idx_z(chunk.size as int, target),
            )
        } else {
            Seq::<Vertex>::empty()
        }),
    decreases n,
{
    let size = chunk.size as int;
    let goal = if n > target && spec_cell_class(
        chunk,
        idx_x(size, target),
        idx_y(size, target),
        idx_z(size, target),
    ) == Some(tc) {
        spec_cell_mesh(chunk, nb, idx_x(size, target), idx_y(size, target), idx_z(size, target))
    } else {
        Seq::<Vertex>::empty()
    };
    if n > 0 {
        lemma_single_cell_stream_prefix(chunk, nb, tc, target, n - 1);
        let i = n - 1;
        lemma_flat_index_bounds(size, i);
        let xd = idx_x(size, i);
        let yd = idx_y(size, i);
        let zd = idx_z(size, i);
        if i != target {
            assert(cell_index(size, xd, yd, zd) == i);
            assert(chunk.voxels@[i] == VoxelCell::Empty);
            assert(chunk.spec_cell(xd, yd, zd) == VoxelCell::Empty);
            assert(spec_cell_stream_verts(chunk, nb, i, tc) == Seq::<Vertex>::empty());
        }
        assert(spec_stream_verts_up_to(chunk, nb, tc, n) =~= goal);
    } else {
        assert(spec_stream_verts_up_to(chunk, nb, tc, n) =~= goal);
    }
}

/// Law: face conservation. For a chunk whose only non-empty cell is one
/// solid cube voxel away from the chunk border — so every one of its six
/// neighbor cells lies inside the chunk and is empty — all six faces are
/// emitted: the stream of the block's class holds exactly 24 vertices
/// (6 faces × 4), and the dense index stream for those 6 quads holds 36
/// indices.
pub proof fn lemma_isolated_voxel_six_faces(
    chunk: Chunk,
    nb: NeighborSet,
    x: int,
    y: int,
    z: int,
    b: Block,
)
    requires
        chunk.wf(),
        0 < x < chunk.size - 1,
        0 < y < chunk.size - 1,
        0 < z < chunk.size - 1,
        chunk.spec_cell(x, y, z) == VoxelCell::BorderVisible(b),
        forall|i: int|
            0 <= i < chunk.voxels@.len() && i != cell_index(chunk.size as int, x, y, z)
                ==> chunk.voxels@[i] == VoxelCell::Empty,
    ensures
        spec_stream_verts(chunk, nb, spec_block_properties(b).transparency).len() == 24,
        spec_indices(6).len() == 36,
{
    let size = chunk.size as int;
    let target = cell_index(size, x, y, z);
    lemma_cell_index_roundtrip(size, x, y, z);
    lemma_cell_index_roundtrip(size, x - 1, y, z);
    lemma_cell_index_roundtrip(size, x + 1, y, z);
    lemma_cell_index_roundtrip(size, x, y - 1, z);
    lemma_cell_index_roundtrip(size, x, y + 1, z);
    lemma_cell_index_roundtrip(size, x, y, z - 1);
    lemma_cell_index_roundtrip(size, x, y, z + 1);
    assert(chunk.voxels@[cell_index(size, x - 1, y, z)] == VoxelCell::Empty);
    assert(chunk.voxels@[cell_index(size, x + 1, y, z)] == VoxelCell::Empty);
    assert(chunk.voxels@[cell_index(size, x, y - 1, z)] == VoxelCell::Empty);
    assert(chunk.voxels@[cell_index(size, x, y + 1, z)] == VoxelCell::Empty);
    assert(chunk.voxels@[cell_index(size, x, y, z - 1)] == VoxelCell::Empty);
    assert(chunk.voxels@[cell_index(size, x, y, z + 1)] == VoxelCell::Empty);
    assert(spec_face_emitted(chunk, nb, x, y, z, FaceDir::XNeg, false));
    assert(spec_face_emitted(chunk, nb, x, y, z, FaceDir::XPos, false));
    assert(spec_face_emitted(chunk, nb, x, y, z, FaceDir::YNeg, false));
    assert(spec_face_emitted(chunk, nb, x, y, z, FaceDir::YPos, false));
    assert(spec_face_emitted(chunk, nb, x, y, z, FaceDir::ZNeg, false));
    assert(spec_face_emitted(chunk, nb, x, y, z, FaceDir::ZPos, false));
    assert(spec_cell_mesh(chunk, nb, x, y, z).len() == 24);
    let tc = spec_block_properties(b).transparency;
    lemma_single_cell_stream_prefix(chunk, nb, tc, target, size * size * size);
    assert(spec_cell_class(chunk, x, y, z) == Some(tc));
    assert(spec_stream_verts(chunk, nb, tc) == spec_cell_mesh(chunk, nb, x, y, z));
    lemma_indices_in_bounds(6);
}

/// Law: meshing is deterministic. [`build`] pins every stream to a function
/// of the chunk and its neighbor state alone, so two builds from identical
/// inputs yield identical vertex streams (and, their lengths being equal,
/// identical index streams).
pub proof fn lemma_build_deterministic(
    chunk: Chunk,
    nb: NeighborSet,
    tc: Transparency,
    v1: Seq<Vertex>,
    v2: Seq<Vertex>,
)
    requires
        v1 == spec_stream_verts(chunk, nb, tc),
        v2 == spec_stream_verts(chunk, nb, tc),
    ensures
        v1 == v2,
{
}

} // verus!
