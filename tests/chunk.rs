use gs_schemas::chunk::{ArrayData, BlockLight, Chunk, PaletteData, PaletteFullError};
use gs_schemas::coordinates::CHUNK_DIM3Z;
use gs_schemas::voxeltypes::BlockId;

fn block(n: u32) -> BlockId {
    BlockId::from_bits(n, 0, 0, 0)
}

#[test]
fn singleton_chunk_upgrades_on_second_block() {
    let air = BlockId::from_bits(1, 0, 0, 0);
    let stone = BlockId::from_bits(2, 1, 0x3F, 0);
    let mut chunk = Chunk::new(air, BlockLight::new(0));
    assert!(matches!(chunk.blocks(), PaletteData::Singleton(_)));
    chunk.set_block(1234, stone).unwrap();
    assert!(matches!(chunk.blocks(), PaletteData::Type16(_)));
    assert_eq!(chunk.get_block(1234), stone);
    for i in 0..CHUNK_DIM3Z {
        if i != 1234 {
            assert_eq!(chunk.get_block(i), air);
        }
    }
}

#[test]
fn writing_the_singleton_value_keeps_singleton() {
    let air = block(1);
    let mut data = PaletteData::new(air);
    data.set(17, air).unwrap();
    assert_eq!(data.tier_index(), 0);
    assert_eq!(data.get(17), air);
}

#[test]
fn last_write_wins() {
    let mut data = PaletteData::new(block(0));
    let writes = [(5usize, 1u32), (9, 2), (5, 3), (32767, 4), (0, 5), (9, 0)];
    for (i, v) in writes {
        data.set(i, block(v)).unwrap();
    }
    assert_eq!(data.get(5), block(3));
    assert_eq!(data.get(9), block(0));
    assert_eq!(data.get(32767), block(4));
    assert_eq!(data.get(0), block(5));
    assert_eq!(data.get(1), block(0));
}

#[test]
fn tiers_upgrade_and_keep_cells() {
    let mut data = PaletteData::new(block(0));
    // 16 distinct values (0..16) fit the first palette.
    for v in 1..16u32 {
        data.set(v as usize, block(v)).unwrap();
    }
    assert_eq!(data.tier_index(), 1);
    data.set(16, block(16)).unwrap();
    assert_eq!(data.tier_index(), 2);
    for v in 0..17u32 {
        assert_eq!(data.get(v as usize), block(v));
    }
    for v in 17..256u32 {
        data.set(v as usize, block(v)).unwrap();
    }
    assert_eq!(data.tier_index(), 2);
    data.set(256, block(256)).unwrap();
    assert_eq!(data.tier_index(), 3);
    for v in 0..257u32 {
        assert_eq!(data.get(v as usize), block(v));
    }
    assert_eq!(data.get(300), block(0));
}

#[test]
fn largest_palette_full_is_an_error() {
    let mut data = PaletteData::new(block(0));
    for i in 1..CHUNK_DIM3Z {
        data.set(i, block(i as u32)).unwrap();
    }
    assert_eq!(data.tier_index(), 3);
    // All 32768 palette entries are in use; a value already there still fits.
    data.set(0, block(7)).unwrap();
    assert_eq!(data.get(0), block(7));
    assert_eq!(data.set(1, block(1_000_000)), Err(PaletteFullError));
    assert_eq!(data.get(1), block(1));
}

#[test]
fn light_array_materializes_on_second_value() {
    let mut light = ArrayData::new(BlockLight::new(3));
    light.set(10, BlockLight::new(3));
    assert!(matches!(light, ArrayData::Singleton(_)));
    light.set(10, BlockLight::new(15));
    assert!(matches!(light, ArrayData::Array(_)));
    assert_eq!(light.get(10).level(), 15);
    assert_eq!(light.get(11).level(), 3);
}

#[test]
fn chunk_light_and_blocks_are_independent() {
    let mut chunk = Chunk::new(block(1), BlockLight::new(0));
    chunk.set_light(7, BlockLight::new(12));
    assert_eq!(chunk.get_light(7), BlockLight::new(12));
    assert_eq!(chunk.get_light(8), BlockLight::new(0));
    assert!(matches!(chunk.blocks(), PaletteData::Singleton(_)));
    chunk.set_block(7, block(2)).unwrap();
    assert_eq!(chunk.get_light(7), BlockLight::new(12));
    assert!(matches!(chunk.light_level(), ArrayData::Array(_)));
}

#[test]
fn cloned_chunk_is_independent() {
    let mut chunk = Chunk::new(block(1), BlockLight::new(0));
    chunk.set_block(3, block(2)).unwrap();
    let copy = chunk.clone();
    assert!(copy == chunk);
    chunk.set_block(3, block(4)).unwrap();
    assert_eq!(copy.get_block(3), block(2));
    assert_eq!(chunk.get_block(3), block(4));
    assert!(copy != chunk);
}
