//! Block identifiers and the block-property table.
//!
//! A [`Block`] is a numeric identifier indexing into a fixed table of
//! properties: the texture id used for atlas lookup, the mesh type (full
//! cube, cross-shaped sprite, or fluid surface) and the transparency class
//! that selects the draw stream.

use vstd::prelude::*;

verus! {

/// Identifier of the surface (grass) block.
pub const BLOCK_TOPSOIL: u32 = 0;
/// Identifier of the shallow sub-surface (dirt) block.
pub const BLOCK_SUBSOIL: u32 = 1;
/// Identifier of the deep stone block.
pub const BLOCK_STONE: u32 = 2;
/// Identifier of the sand block.
pub const BLOCK_SAND: u32 = 3;
/// Identifier of the common floral sprite block.
pub const BLOCK_FLORAL_COMMON: u32 = 4;
/// Identifier of the rare floral sprite block.
pub const BLOCK_FLORAL_RARE: u32 = 5;
/// Identifier of the water block.
pub const BLOCK_WATER: u32 = 6;

/// An opaque numeric identifier for a block kind, indexing into the
/// block-property table. Immutable once assigned to a cell.
#[derive(Clone, Copy, Debug, PartialEq, Eq, Structural)]
pub struct Block(pub u32);

/// Geometric template used when meshing a block.
#[derive(Clone, Copy, Debug, PartialEq, Eq, Structural)]
pub enum MeshType {
    /// Six axis-aligned unit-square faces, subject to occlusion culling.
    Cube,
    /// Two intersecting diagonal quads forming an X; never culled.
    Cross,
    /// Cube-shaped fluid surface with its own occlusion rule.
    Fluid,
}

/// Draw-order stream a block's geometry is emitted into.
#[derive(Clone, Copy, Debug, PartialEq, Eq, Structural)]
pub enum Transparency {
    /// Drawn first, depth-tested, no blending.
    Opaque,
    /// Alpha-tested geometry such as sprites.
    Transparent,
    /// Blended geometry such as water, drawn last.
    Translucent,
}

/// Shared, read-only properties of a block kind.
#[derive(Clone, Copy, Debug, PartialEq, Eq, Structural)]
pub struct BlockProperties {
    /// Index of the block's texture in the atlas.
    pub texture_id: u32,
    /// Geometric template for meshing.
    pub mesh_type: MeshType,
    /// Stream selection for draw ordering.
    pub transparency: Transparency,
}

/// The block-property table as a total function of the block id. Identifiers
/// outside the table fall back to plain opaque cubes.
pub open spec fn spec_block_properties(b: Block) -> BlockProperties {
    if b.0 == BLOCK_FLORAL_COMMON || b.0 == BLOCK_FLORAL_RARE {
        BlockProperties {
            texture_id: b.0,
            mesh_type: MeshType::Cross,
            transparency: Transparency::Transparent,
        }
    } else if b.0 == BLOCK_WATER {
        BlockProperties {
            texture_id: b.0,
            mesh_type: MeshType::Fluid,
            transparency: Transparency::Translucent,
        }
    } else {
        BlockProperties {
            texture_id: b.0,
            mesh_type: MeshType::Cube,
            transparency: Transparency::Opaque,
        }
    }
}

/// Looks up the properties of a block id in the fixed table.
pub fn block_properties(b: Block) -> (r: BlockProperties)
    ensures
        r == spec_block_properties(b),
{
    if b.0 == BLOCK_FLORAL_COMMON || b.0 == BLOCK_FLORAL_RARE {
        BlockProperties {
            texture_id: b.0,
            mesh_type: MeshType::Cross,
            transparency: Transparency::Transparent,
        }
    } else if b.0 == BLOCK_WATER {
        BlockProperties {
            texture_id: b.0,
            mesh_type: MeshType::Fluid,
            transparency: Transparency::Translucent,
        }
    } else {
        BlockProperties {
            texture_id: b.0,
            mesh_type: MeshType::Cube,
            transparency: Transparency::Opaque,
        }
    }
}

} // verus!
