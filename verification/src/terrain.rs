//! Terrain classification.
//!
//! World elevations are carried as fixed-point integers with
//! [`FP_SCALE`] units per world unit, so that every threshold comparison of
//! the classifier is exact. A [`ColumnSample`] holds what the coherent-noise
//! fields yield for one horizontal column: the base terrain height and the
//! floral density. Sampling the noise itself is the caller's concern; the
//! classifier is a pure function of the sample, which is what makes the
//! generated world reproducible for a fixed seed.

use vstd::prelude::*;
use crate::block::Block;
use crate::block::BLOCK_FLORAL_COMMON;
use crate::block::BLOCK_FLORAL_RARE;
use crate::block::BLOCK_SAND;
use crate::block::BLOCK_STONE;
use crate::block::BLOCK_SUBSOIL;
use crate::block::BLOCK_TOPSOIL;
use crate::block::BLOCK_WATER;

verus! {

/// Fixed-point units per world unit: elevations and densities are stored in
/// thousandths.
pub const FP_SCALE: i64 = 1000;

/// Water fills every cell at or below this elevation (10.0 world units).
pub const SEA_LEVEL_FP: i64 = 10_000;

/// Below the surface, every cell at or below this elevation is sand
/// (13.0 world units).
pub const SAND_LEVEL_FP: i64 = 13_000;

/// Lower edge of the floral-density band that places a floral block (0.8).
pub const FLORAL_BAND_LO: i64 = 800;
/// Upper edge of the floral-density band (0.9).
pub const FLORAL_BAND_HI: i64 = 900;
/// Lower edge of the narrower band that selects the rare floral variant
/// (0.84).
pub const FLORAL_RARE_LO: i64 = 840;
/// Upper edge of the rare-variant band (0.86).
pub const FLORAL_RARE_HI: i64 = 860;

/// Bound on the magnitude of a base height a column sample may carry; far
/// above any elevation the noise octaves can produce, and small enough that
/// the classifier's threshold arithmetic cannot overflow an `i64`.
pub const HEIGHT_LIMIT_FP: i64 = 1_000_000_000_000;

/// What the noise fields yield for one horizontal column `(x, z)`: the base
/// terrain height and the floral density, both in fixed point.
#[derive(Clone, Copy, Debug, PartialEq, Eq, Structural)]
pub struct ColumnSample {
    /// Noise-derived terrain elevation of the column, in fixed point.
    pub base_height: i64,
    /// Independent coarser noise field driving floral placement, in fixed
    /// point.
    pub floralness: i64,
}

impl ColumnSample {
    /// A sample is well formed when its base height is within the bound that
    /// keeps threshold arithmetic inside `i64`.
    pub open spec fn wf(self) -> bool {
        -HEIGHT_LIMIT_FP <= self.base_height <= HEIGHT_LIMIT_FP
    }
}

/// The block placed at elevation `y` in a column with base height `base` and
/// floral density `floral` (all fixed point); `None` is air.
///
/// The branch order is part of the contract: the sand threshold is tested
/// before the topsoil and subsoil bands, so at low absolute elevation sand
/// overrides soil and stone arbitrarily far below the surface.
pub open spec fn spec_classify(y: int, base: int, floral: int) -> Option<Block> {
    if y >= base + FP_SCALE {
        if y <= SEA_LEVEL_FP {
            Some(Block(BLOCK_WATER))
        } else {
            None
        }
    } else if y >= base {
        if y <= SEA_LEVEL_FP {
            Some(Block(BLOCK_WATER))
        } else if FLORAL_BAND_LO <= floral && floral <= FLORAL_BAND_HI {
            if FLORAL_RARE_LO <= floral && floral <= FLORAL_RARE_HI {
                Some(Block(BLOCK_FLORAL_RARE))
            } else {
                Some(Block(BLOCK_FLORAL_COMMON))
            }
        } else {
            None
        }
    } else if y <= SAND_LEVEL_FP {
        Some(Block(BLOCK_SAND))
    } else if y >= base - FP_SCALE {
        Some(Block(BLOCK_TOPSOIL))
    } else if y >= base - 3 * FP_SCALE {
        Some(Block(BLOCK_SUBSOIL))
    } else {
        Some(Block(BLOCK_STONE))
    }
}

/// Classifies the cell at fixed-point elevation `y_fp` of the column `col`;
/// `None` is air. Total: every elevation yields a classification.
pub fn classify(y_fp: i64, col: &ColumnSample) -> (r: Option<Block>)
    requires
        col.wf(),
    ensures
        r == spec_classify(y_fp as int, col.base_height as int, col.floralness as int),
{
    let base = col.base_height;
    let floral = col.floralness;
    if y_fp >= base + FP_SCALE {
        if y_fp <= SEA_LEVEL_FP {
            Some(Block(BLOCK_WATER))
        } else {
            None
        }
    } else if y_fp >= base {
        if y_fp <= SEA_LEVEL_FP {
            Some(Block(BLOCK_WATER))
        } else if FLORAL_BAND_LO <= floral && floral <= FLORAL_BAND_HI {
            if FLORAL_RARE_LO <= floral && floral <= FLORAL_RARE_HI {
                Some(Block(BLOCK_FLORAL_RARE))
            } else {
                Some(Block(BLOCK_FLORAL_COMMON))
            }
        } else {
            None
        }
    } else if y_fp <= SAND_LEVEL_FP {
        Some(Block(BLOCK_SAND))
    } else if y_fp >= base - FP_SCALE {
        Some(Block(BLOCK_TOPSOIL))
    } else if y_fp >= base - 3 * FP_SCALE {
        Some(Block(BLOCK_SUBSOIL))
    } else {
        Some(Block(BLOCK_STONE))
    }
}

/// The base terrain height of the column, for bound tests that do not need a
/// full classification: above it (plus one unit) only water or air occur.
pub fn surface_height(col: &ColumnSample) -> (r: i64)
    ensures
        r == col.base_height,
{
    col.base_height
}

/// Whether a floral block would stand on the surface of the column.
pub open spec fn spec_floral_presence(base: int, floral: int) -> Option<i64> {
    if base > SEA_LEVEL_FP && FLORAL_BAND_LO <= floral && floral <= FLORAL_BAND_HI {
        Some(base as i64)
    } else {
        None
    }
}

/// Returns the surface height if a floral block would be placed on this
/// column (the column rises above sea level and the floral density falls in
/// the placement band), else `None`.
pub fn floral_presence(col: &ColumnSample) -> (r: Option<i64>)
    ensures
        r == spec_floral_presence(col.base_height as int, col.floralness as int),
{
    if col.base_height > SEA_LEVEL_FP {
        if FLORAL_BAND_LO <= col.floralness && col.floralness <= FLORAL_BAND_HI {
            Some(col.base_height)
        } else {
            None
        }
    } else {
        None
    }
}

/// Whether the column is submerged, and at what surface elevation.
pub open spec fn spec_fluid_surface(base: int) -> Option<i64> {
    if base + FP_SCALE <= SEA_LEVEL_FP {
        Some(SEA_LEVEL_FP)
    } else {
        None
    }
}

/// Returns the sea level if the column is submerged (its surface cell and the
/// cell above it are at or below sea level), else `None`.
pub fn fluid_surface(col: &ColumnSample) -> (r: Option<i64>)
    ensures
        r == spec_fluid_surface(col.base_height as int),
{
    if col.base_height <= SEA_LEVEL_FP - FP_SCALE {
        Some(SEA_LEVEL_FP)
    } else {
        None
    }
}

/// Above the surface cell, classification depends only on the comparison with
/// sea level: water at or below it, air above it, whatever the floral
/// density.
pub proof fn lemma_above_surface_water_iff(y: int, base: int, floral: int)
    requires
        y >= base + FP_SCALE,
    ensures
        spec_classify(y, base, floral) == (if y <= SEA_LEVEL_FP {
            Some(Block(BLOCK_WATER))
        } else {
            None::<Block>
        }),
{
}

/// Below the surface cell, the sand threshold overrides the topsoil, subsoil
/// and stone bands: any cell at or below the sand level is sand, however far
/// below the surface it lies.
pub proof fn lemma_sand_overrides_depth(y: int, base: int, floral: int)
    requires
        y < base,
        y <= SAND_LEVEL_FP,
    ensures
        spec_classify(y, base, floral) == Some(Block(BLOCK_SAND)),
{
}

} // verus!
