//! Field codec behaviour on concrete values.

use icm42605::codec::{
    decode_field, decode_field_from_buffer, encode_field, encode_field_into_buffer,
    extract_bits_exec, insert_bits_exec, load_buffer, mask_bits_exec, pack_fields,
    sign_extend_exec, store_buffer, ByteOrder, DecodeError, EnumDef, FieldDescriptor, FieldKind,
    FieldValue, VariantPattern,
};

fn unsigned_field(offset: u32, width: u32) -> FieldDescriptor {
    FieldDescriptor { offset, width, kind: FieldKind::Unsigned }
}

fn signed_field(offset: u32, width: u32) -> FieldDescriptor {
    FieldDescriptor { offset, width, kind: FieldKind::Signed }
}

fn bool_field(offset: u32) -> FieldDescriptor {
    FieldDescriptor { offset, width: 1, kind: FieldKind::Boolean }
}

#[test]
fn masks() {
    assert_eq!(mask_bits_exec(1), 0x1);
    assert_eq!(mask_bits_exec(4), 0xf);
    assert_eq!(mask_bits_exec(12), 0xfff);
    assert_eq!(mask_bits_exec(32), 0xffff_ffff);
}

#[test]
fn extract_and_insert() {
    assert_eq!(extract_bits_exec(0b0101_0000, 4, 3), 0b101);
    assert_eq!(insert_bits_exec(0xff, 2, 3, 0), 0xe3);
    // Inserting touches only the targeted bits.
    assert_eq!(insert_bits_exec(0b1000_0001, 3, 2, 0b11), 0b1001_1001);
}

#[test]
fn load_big_endian() {
    assert_eq!(load_buffer(&vec![0x12], ByteOrder::BigEndian), 0x12);
    assert_eq!(load_buffer(&vec![0x12, 0x34], ByteOrder::BigEndian), 0x1234);
    assert_eq!(load_buffer(&vec![0x12, 0x34, 0x56], ByteOrder::BigEndian), 0x123456);
    assert_eq!(load_buffer(&vec![0x12, 0x34, 0x56, 0x78], ByteOrder::BigEndian), 0x12345678);
}

#[test]
fn load_little_endian() {
    assert_eq!(load_buffer(&vec![0x12], ByteOrder::LittleEndian), 0x12);
    assert_eq!(load_buffer(&vec![0x12, 0x34], ByteOrder::LittleEndian), 0x3412);
    assert_eq!(load_buffer(&vec![0x12, 0x34, 0x56], ByteOrder::LittleEndian), 0x563412);
    assert_eq!(load_buffer(&vec![0x12, 0x34, 0x56, 0x78], ByteOrder::LittleEndian), 0x78563412);
}

#[test]
fn store_both_orders() {
    assert_eq!(store_buffer(0x1234, 2, ByteOrder::BigEndian), vec![0x12, 0x34]);
    assert_eq!(store_buffer(0x1234, 2, ByteOrder::LittleEndian), vec![0x34, 0x12]);
    assert_eq!(store_buffer(0xabcdef, 3, ByteOrder::LittleEndian), vec![0xef, 0xcd, 0xab]);
    assert_eq!(store_buffer(0x7f, 1, ByteOrder::BigEndian), vec![0x7f]);
}

#[test]
fn store_then_load_round_trip() {
    for &v in &[0u32, 1, 0x80, 0xfff, 0xabcd] {
        for order in [ByteOrder::BigEndian, ByteOrder::LittleEndian] {
            assert_eq!(load_buffer(&store_buffer(v, 2, order), order), v);
        }
    }
}

#[test]
fn boolean_round_trip() {
    let f = bool_field(4);
    let enc = encode_field(&f, &FieldValue::Flag(true), 0);
    assert_eq!(enc, 0x10);
    assert_eq!(decode_field(&f, enc), Ok(FieldValue::Flag(true)));
    let enc = encode_field(&f, &FieldValue::Flag(false), 0xff);
    assert_eq!(enc, 0xef);
    assert_eq!(decode_field(&f, enc), Ok(FieldValue::Flag(false)));
}

#[test]
fn unsigned_round_trip() {
    let f = unsigned_field(3, 4);
    for v in 0..=0xf {
        let enc = encode_field(&f, &FieldValue::Unsigned(v), 0xffff_ffff);
        assert_eq!(decode_field(&f, enc), Ok(FieldValue::Unsigned(v)));
    }
}

#[test]
fn signed_decode_full_register() {
    // A 16-bit register read as one signed field spanning all 16 bits.
    assert_eq!(sign_extend_exec(0x8000, 16), -32768);
    assert_eq!(sign_extend_exec(0xffff, 16), -1);
    assert_eq!(sign_extend_exec(0x7fff, 16), 32767);
    assert_eq!(sign_extend_exec(0, 16), 0);
}

#[test]
fn signed_round_trip_boundaries() {
    // The two's-complement boundary for several widths: the minimum
    // representable value survives the round trip, as do its neighbours.
    for w in [2u32, 5, 8, 16, 24, 32] {
        let f = signed_field(0, w);
        let min = -(1i64 << (w - 1));
        let max = (1i64 << (w - 1)) - 1;
        for v in [min, min + 1, -1, 0, 1, max] {
            let enc = encode_field(&f, &FieldValue::Signed(v), 0);
            assert_eq!(decode_field(&f, enc), Ok(FieldValue::Signed(v)), "w={w} v={v}");
        }
    }
}

#[test]
fn signed_subfield_sign_extends_from_field_width() {
    // A 4-bit signed field inside a wider register: bit 3 is the sign bit.
    let f = signed_field(8, 4);
    let enc = encode_field(&f, &FieldValue::Signed(-8), 0);
    assert_eq!(enc, 0x800);
    assert_eq!(decode_field(&f, enc), Ok(FieldValue::Signed(-8)));
}

fn enum_field(offset: u32, width: u32, variants: Vec<VariantPattern>) -> FieldDescriptor {
    FieldDescriptor { offset, width, kind: FieldKind::Enumeration(EnumDef { variants }) }
}

#[test]
fn enum_decode_explicit_variants_in_order() {
    let f = enum_field(
        0,
        2,
        vec![
            VariantPattern::Exact(0),
            VariantPattern::Exact(1),
            VariantPattern::Exact(2),
            VariantPattern::Exact(3),
        ],
    );
    for raw in 0..=3u32 {
        assert_eq!(decode_field(&f, raw), Ok(FieldValue::Variant(raw as usize)));
    }
}

#[test]
fn enum_catch_all_takes_every_unclaimed_pattern() {
    // Catch-all declared first, explicit patterns 2 and 3 after it.
    let f = enum_field(
        0,
        2,
        vec![VariantPattern::CatchAll, VariantPattern::Exact(2), VariantPattern::Exact(3)],
    );
    assert_eq!(decode_field(&f, 0), Ok(FieldValue::Variant(0)));
    assert_eq!(decode_field(&f, 1), Ok(FieldValue::Variant(0)));
    assert_eq!(decode_field(&f, 2), Ok(FieldValue::Variant(1)));
    assert_eq!(decode_field(&f, 3), Ok(FieldValue::Variant(2)));
}

#[test]
fn enum_without_catch_all_rejects_unclaimed_pattern() {
    let f = enum_field(0, 2, vec![VariantPattern::Exact(0), VariantPattern::Exact(1)]);
    assert_eq!(decode_field(&f, 0), Ok(FieldValue::Variant(0)));
    assert_eq!(decode_field(&f, 3), Err(DecodeError::UnmatchedPattern));
}

#[test]
fn enum_encode_writes_bound_pattern() {
    let f = enum_field(
        4,
        2,
        vec![VariantPattern::CatchAll, VariantPattern::Exact(2), VariantPattern::Exact(3)],
    );
    let enc = encode_field(&f, &FieldValue::Variant(1), 0);
    assert_eq!(enc, 0x20);
    assert_eq!(decode_field(&f, enc), Ok(FieldValue::Variant(1)));
}

#[test]
fn encode_merges_without_touching_other_fields() {
    // Two disjoint fields; writing one leaves the other's decoding intact.
    let lo = unsigned_field(0, 4);
    let hi = unsigned_field(4, 4);
    let reg = encode_field(&hi, &FieldValue::Unsigned(0xa), 0x0000_0005);
    assert_eq!(reg, 0xa5);
    assert_eq!(decode_field(&lo, reg), Ok(FieldValue::Unsigned(5)));
    assert_eq!(decode_field(&hi, reg), Ok(FieldValue::Unsigned(0xa)));
}

#[test]
fn pack_fields_starts_from_zero() {
    let fields = vec![bool_field(7), unsigned_field(4, 3), unsigned_field(0, 4)];
    let values =
        vec![FieldValue::Flag(true), FieldValue::Unsigned(0b101), FieldValue::Unsigned(0x9)];
    assert_eq!(pack_fields(&fields, &values), 0b1101_1001);
}

#[test]
fn buffer_codec_round_trip_merges_into_the_buffer() {
    // A 12-bit field at bit 8 of a 3-byte little-endian register.
    let f = unsigned_field(8, 12);
    let before = vec![0xaa, 0x00, 0xf0];
    let after =
        encode_field_into_buffer(&f, &FieldValue::Unsigned(0xabc), &before, ByteOrder::LittleEndian);
    assert_eq!(
        decode_field_from_buffer(&f, &after, ByteOrder::LittleEndian),
        Ok(FieldValue::Unsigned(0xabc))
    );
    // Bits outside the field keep the buffer's values: the low byte and the
    // top nibble are untouched.
    assert_eq!(after[0], 0xaa);
    assert_eq!(after[2] & 0xf0, 0xf0);
}
