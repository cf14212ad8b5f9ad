use voxel_terrain::block::Block;
use voxel_terrain::block::BLOCK_FLORAL_COMMON;
use voxel_terrain::block::BLOCK_FLORAL_RARE;
use voxel_terrain::block::BLOCK_SAND;
use voxel_terrain::block::BLOCK_STONE;
use voxel_terrain::block::BLOCK_SUBSOIL;
use voxel_terrain::block::BLOCK_TOPSOIL;
use voxel_terrain::block::BLOCK_WATER;
use voxel_terrain::terrain::classify;
use voxel_terrain::terrain::floral_presence;
use voxel_terrain::terrain::fluid_surface;
use voxel_terrain::terrain::surface_height;
use voxel_terrain::terrain::ColumnSample;
use voxel_terrain::terrain::SEA_LEVEL_FP;

fn col(base_height: i64, floralness: i64) -> ColumnSample {
    ColumnSample { base_height, floralness }
}

#[test]
fn above_surface_is_water_iff_at_or_below_sea_level() {
    // h = 8.0: a query at y = h + 2 = 10.0 is at sea level: water.
    assert_eq!(classify(10_000, &col(8_000, 0)), Some(Block(BLOCK_WATER)));
    // h = 9.0: y = h + 2 = 11.0 > 10.0: empty.
    assert_eq!(classify(11_000, &col(9_000, 0)), None);
    // Exactly at the branch edge: y = h + 1 uses the above-surface rule.
    assert_eq!(classify(9_000, &col(8_000, 0)), Some(Block(BLOCK_WATER)));
}

#[test]
fn sand_overrides_soil_far_below_the_surface() {
    // h = 20.0, y = 5.0: 5 <= SAND_LEVEL triggers before the h-1/h-3 bands,
    // even though y < h - 3 would be stone.
    assert_eq!(classify(5_000, &col(20_000, 0)), Some(Block(BLOCK_SAND)));
    // The sand threshold itself is inclusive.
    assert_eq!(classify(13_000, &col(20_000, 0)), Some(Block(BLOCK_SAND)));
    // Just above it the soil bands take over again.
    assert_eq!(classify(19_500, &col(20_000, 0)), Some(Block(BLOCK_TOPSOIL)));
}

#[test]
fn soil_bands_below_the_surface() {
    let c = col(20_000, 0);
    // [h-1, h): topsoil.
    assert_eq!(classify(19_000, &c), Some(Block(BLOCK_TOPSOIL)));
    // [h-3, h-1): subsoil.
    assert_eq!(classify(18_999, &c), Some(Block(BLOCK_SUBSOIL)));
    assert_eq!(classify(17_000, &c), Some(Block(BLOCK_SUBSOIL)));
    // Below h-3 (and above the sand level): stone.
    assert_eq!(classify(16_999, &c), Some(Block(BLOCK_STONE)));
    assert_eq!(classify(14_000, &c), Some(Block(BLOCK_STONE)));
}

#[test]
fn surface_cell_floral_bands() {
    // Surface cell above sea level: the floral band [0.8, 0.9] places the
    // common variant, the narrow band [0.84, 0.86] the rare one.
    assert_eq!(classify(20_000, &col(20_000, 820)), Some(Block(BLOCK_FLORAL_COMMON)));
    assert_eq!(classify(20_000, &col(20_000, 850)), Some(Block(BLOCK_FLORAL_RARE)));
    assert_eq!(classify(20_000, &col(20_000, 840)), Some(Block(BLOCK_FLORAL_RARE)));
    assert_eq!(classify(20_000, &col(20_000, 861)), Some(Block(BLOCK_FLORAL_COMMON)));
    assert_eq!(classify(20_000, &col(20_000, 900)), Some(Block(BLOCK_FLORAL_COMMON)));
    assert_eq!(classify(20_000, &col(20_000, 901)), None);
    assert_eq!(classify(20_000, &col(20_000, 799)), None);
}

#[test]
fn submerged_surface_cell_is_water() {
    // Surface cell at or below sea level is water whatever the floral field.
    assert_eq!(classify(8_000, &col(8_000, 850)), Some(Block(BLOCK_WATER)));
}

#[test]
fn surface_height_returns_the_base_height() {
    assert_eq!(surface_height(&col(23_500, 0)), 23_500);
    assert_eq!(surface_height(&col(-4_000, 0)), -4_000);
}

#[test]
fn floral_presence_needs_dry_surface_and_band() {
    assert_eq!(floral_presence(&col(20_000, 850)), Some(20_000));
    assert_eq!(floral_presence(&col(20_000, 800)), Some(20_000));
    assert_eq!(floral_presence(&col(20_000, 950)), None);
    // At or below sea level the surface is submerged: no floral block.
    assert_eq!(floral_presence(&col(9_000, 850)), None);
    assert_eq!(floral_presence(&col(10_000, 850)), None);
}

#[test]
fn fluid_surface_exists_only_for_submerged_columns() {
    assert_eq!(fluid_surface(&col(9_000, 0)), Some(SEA_LEVEL_FP));
    assert_eq!(fluid_surface(&col(8_999, 0)), Some(SEA_LEVEL_FP));
    // base + 1 above sea level: the column is dry.
    assert_eq!(fluid_surface(&col(9_001, 0)), None);
    assert_eq!(fluid_surface(&col(20_000, 0)), None);
}
