use oboromi_core::bits::{composite, field, pack, FieldPart};

#[test]
fn field_reads_low_bits() {
    assert_eq!(field(0xABCD, 0, 8), 0xCD);
    assert_eq!(field(0xABCD, 8, 8), 0xAB);
    assert_eq!(field(0xABCD, 4, 4), 0xC);
}

#[test]
fn field_reads_high_half_of_word() {
    let word: u128 = 0xFFFF_0000_0000_0000_0000_0000_0000_0000;
    assert_eq!(field(word, 112, 16), 0xFFFF);
    assert_eq!(field(word, 120, 8), 0xFF);
    assert_eq!(field(word, 64, 48), 0);
    assert_eq!(field(u128::MAX, 64, 64), u64::MAX);
    assert_eq!(field(u128::MAX, 0, 64), u64::MAX);
}

#[test]
fn field_of_width_zero_is_zero() {
    assert_eq!(field(u128::MAX, 5, 0), 0);
    assert_eq!(field(u128::MAX, 128, 0), 0);
}

#[test]
fn field_zero_extends_reserved_bits() {
    // Bits above the field never leak into the result.
    let word: u128 = (0x7u128 << 12) | (1u128 << 15);
    assert_eq!(field(word, 12, 3), 7);
    assert_eq!(field(word, 15, 1), 1);
}

#[test]
fn pack_places_value_at_offset() {
    assert_eq!(pack(0xFF, 16, 8), 0xFF_0000);
    assert_eq!(pack(1, 127, 1), 1u128 << 127);
    assert_eq!(pack(0, 40, 24), 0);
    assert_eq!(pack(u64::MAX, 64, 64), (u64::MAX as u128) << 64);
}

#[test]
fn pack_then_field_round_trips() {
    let cases: [(u64, u32, u32); 6] = [
        (0, 0, 1),
        (1, 0, 1),
        (255, 24, 8),
        (0x7FF, 40, 11),
        (0xFFFF_FFFF, 32, 32),
        (0x1234_5678_9ABC_DEF0, 64, 64),
    ];
    for (v, offset, width) in cases {
        assert_eq!(field(pack(v, offset, width), offset, width), v);
    }
}

#[test]
fn composite_joins_scattered_parts() {
    // An 8-bit field: bits 122..125 are its top three bits, bits 105..110 the rest.
    let parts = [
        FieldPart { shift: 5, offset: 122, width: 3 },
        FieldPart { shift: 0, offset: 105, width: 5 },
    ];
    let word = pack(0b101, 122, 3) | pack(0b10011, 105, 5);
    assert_eq!(composite(word, &parts), 0b101_10011);
    assert_eq!(composite(0, &parts), 0);
    assert_eq!(composite(u128::MAX, &parts), 0xFF);
}

#[test]
fn composite_of_no_parts_is_zero() {
    assert_eq!(composite(u128::MAX, &[]), 0);
}
