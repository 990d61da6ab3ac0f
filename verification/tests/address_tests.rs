//! The bank-and-offset addressable unit.

use icm42605::address::{decode_address, encode_address, BANK_SENTINEL};

#[test]
fn encode_puts_offset_low_and_bank_high() {
    assert_eq!(encode_address(0, 0x11), 0x0011);
    assert_eq!(encode_address(1, 0x7c), 0x017c);
    assert_eq!(encode_address(2, 0x0c), 0x020c);
    assert_eq!(encode_address(4, 0x40), 0x0440);
}

#[test]
fn decode_splits_the_unit_back() {
    assert_eq!(decode_address(0x0440), (0x40, 4));
    assert_eq!(decode_address(0x0011), (0x11, 0));
    assert_eq!(decode_address(0x01ff), (0xff, 1));
}

#[test]
fn round_trip_is_lossless() {
    for bank in [0u8, 1, 2, 4, 0x7f, 0xfe] {
        for offset in [0u8, 1, 0x76, 0xff] {
            let unit = encode_address(bank, offset);
            assert_eq!(decode_address(unit), (offset, bank));
        }
    }
}

#[test]
fn sentinel_is_no_real_bank() {
    // Every register of the map lives in banks 0 to 4; the sentinel can
    // never collide with one of them.
    assert_eq!(BANK_SENTINEL, 0xff);
}
