use gs_schemas::voxeltypes::BlockId;

#[test]
fn block_id_fields_round_trip() {
    for shape in 0u8..64 {
        for sides in [0u8, 1, 17, 63] {
            for mode in 0u8..4 {
                let id = BlockId::from_bits(0xDEAD_BEEF, shape, sides, mode);
                assert_eq!(id.registry_id_bits(), 0xDEAD_BEEF);
                assert_eq!(id.shape_id_bits(), shape);
                assert_eq!(id.solid_sides_bits(), sides);
                assert_eq!(id.render_mode_bits(), mode);
            }
        }
    }
}

#[test]
fn block_id_layout() {
    let id = BlockId::from_bits(5, 1, 2, 3);
    assert_eq!(id.to_bits(), (5u64 << 32) | 1 | (2 << 6) | (3 << 12));
    assert_eq!(BlockId::from_raw(id.to_bits()), id);
    assert_eq!(BlockId::from_bits(u32::MAX, 0, 0, 0).registry_id_bits(), u32::MAX);
}

#[test]
fn block_id_truncates_wide_fields() {
    let id = BlockId::from_bits(7, 0xFF, 0x41, 0x06);
    assert_eq!(id.shape_id_bits(), 0x3F);
    assert_eq!(id.solid_sides_bits(), 0x01);
    assert_eq!(id.render_mode_bits(), 0x02);
    assert_eq!(id.registry_id_bits(), 7);
}

#[test]
fn block_ids_equal_iff_bits_equal() {
    assert_eq!(BlockId::from_bits(1, 2, 3, 1), BlockId::from_bits(1, 2, 3, 1));
    assert_ne!(BlockId::from_bits(1, 2, 3, 1), BlockId::from_bits(1, 2, 3, 2));
}
