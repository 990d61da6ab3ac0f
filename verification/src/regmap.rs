//! Register descriptors: the static metadata of one register — where it
//! lives, how wide it is, how it may be accessed, its byte order on the bus,
//! and the fields it carries.

use vstd::prelude::*;
use crate::address::{address_bank, BANK_SENTINEL};
use crate::codec::{field_wf, fields_disjoint, ByteOrder, FieldDescriptor};

verus! {

/// How a register may be accessed over the bus.
#[derive(Clone, Copy, PartialEq, Eq, Structural, Debug)]
pub enum Access {
    ReadOnly,
    WriteOnly,
    ReadWrite,
}

/// Static metadata of one register. Descriptors are built once and never
/// change; aliased registers that repeat a layout at another address are
/// independent descriptors.
#[derive(Clone, PartialEq, Debug)]
pub struct RegisterDescriptor {
    /// Addressable unit: low byte in-bank offset, high byte bank.
    pub address: u16,
    /// Width of the register, a whole number of bytes, at most 32 bits.
    pub size_bits: u32,
    /// Whether the register may be read, written, or both.
    pub access: Access,
    /// Order of the register's bytes on the bus.
    pub byte_order: ByteOrder,
    /// The value the register holds after reset. Documentation only; never
    /// enforced at run time.
    pub reset_value: u32,
    /// The fields the register carries, in declaration order.
    pub fields: Vec<FieldDescriptor>,
}

/// Well-formedness of a register descriptor: a whole-byte width of at most
/// 32 bits, a real bank, every field inside the register, and no two fields
/// sharing a bit.
pub open spec fn register_wf(r: RegisterDescriptor) -> bool {
    &&& (r.size_bits == 8 || r.size_bits == 16 || r.size_bits == 24 || r.size_bits == 32)
    &&& address_bank(r.address) != BANK_SENTINEL
    &&& forall|i: int| 0 <= i < r.fields@.len() ==> field_wf(#[trigger] r.fields@[i], r.size_bits)
    &&& forall|i: int, j: int|
        0 <= i < j < r.fields@.len() ==> fields_disjoint(
            #[trigger] r.fields@[i],
            #[trigger] r.fields@[j],
        )
}

/// Whether reading the register is allowed.
pub open spec fn readable(access: Access) -> bool {
    !(access is WriteOnly)
}

/// Whether writing the register is allowed.
pub open spec fn writable(access: Access) -> bool {
    !(access is ReadOnly)
}

/// In a well-formed register, re-encoding one field leaves the decoding of
/// every other field exactly as it was: the read-modify-write of one field
/// cannot disturb its neighbours, read immediately after.
pub proof fn lemma_modify_preserves_other_fields(
    r: RegisterDescriptor,
    i: int,
    j: int,
    v: crate::codec::FieldValue,
    reg: u32,
)
    requires
        register_wf(r),
        0 <= i < r.fields@.len(),
        0 <= j < r.fields@.len(),
        i != j,
        crate::codec::field_value_valid(r.fields@[i], v),
    ensures
        crate::codec::spec_decode_field(
            r.fields@[j],
            crate::codec::spec_encode_field(r.fields@[i], v, reg),
        ) == crate::codec::spec_decode_field(r.fields@[j], reg),
{
    if i < j {
        assert(fields_disjoint(r.fields@[i], r.fields@[j]));
    } else {
        assert(fields_disjoint(r.fields@[j], r.fields@[i]));
    }
    crate::codec::lemma_encode_preserves_disjoint_field(r.fields@[i], r.fields@[j], v, reg);
}

} // verus!
