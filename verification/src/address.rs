//! Addressing: a register is identified by a bank and an in-bank offset,
//! carried through the transport as one 16-bit addressable unit whose low
//! byte is the offset and whose high byte is the bank.

use vstd::prelude::*;

verus! {

/// The "no bank selected yet" marker held by a fresh transport adapter. No
/// real bank has this number, so the first access always selects its bank.
pub const BANK_SENTINEL: u8 = 0xff;

/// The bank carried in the high byte of an addressable unit.
pub open spec fn address_bank(address: u16) -> u8 {
    (address / 256) as u8
}

/// The in-bank register offset carried in the low byte of an addressable
/// unit.
pub open spec fn address_offset(address: u16) -> u8 {
    (address % 256) as u8
}

/// The addressable unit for a bank and an in-bank offset.
pub open spec fn spec_encode_address(bank: u8, offset: u8) -> u16 {
    (bank as u16 * 256 + offset as u16) as u16
}

/// Combine a bank and an in-bank offset into one addressable unit.
pub fn encode_address(bank: u8, offset: u8) -> (r: u16)
    ensures
        r == spec_encode_address(bank, offset),
        address_bank(r) == bank,
        address_offset(r) == offset,
{
    let r = bank as u16 * 256 + offset as u16;
    proof {
        lemma_address_round_trip(bank, offset);
    }
    r
}

/// Split an addressable unit back into its in-bank offset and its bank.
pub fn decode_address(address: u16) -> (r: (u8, u8))
    ensures
        r.0 == address_offset(address),
        r.1 == address_bank(address),
        spec_encode_address(r.1, r.0) == address,
{
    proof {
        lemma_address_decompose(address);
    }
    ((address % 256) as u8, (address / 256) as u8)
}

/// Encoding a bank and an offset and decomposing the unit again gives back
/// the same bank and offset: the combination is lossless.
pub proof fn lemma_address_round_trip(bank: u8, offset: u8)
    ensures
        address_bank(spec_encode_address(bank, offset)) == bank,
        address_offset(spec_encode_address(bank, offset)) == offset,
{
    let a = spec_encode_address(bank, offset);
    assert(a == bank * 256 + offset);
    assert(a / 256 == bank && a % 256 == offset) by (nonlinear_arith)
        requires
            a == bank * 256 + offset,
            0 <= offset < 256,
            0 <= bank < 256,
    ;
}

/// Every addressable unit is exactly the combination of its bank and its
/// offset: decomposition loses nothing either.
pub proof fn lemma_address_decompose(address: u16)
    ensures
        spec_encode_address(address_bank(address), address_offset(address)) == address,
{
    assert((address / 256) * 256 + address % 256 == address) by (nonlinear_arith);
}

} // verus!
