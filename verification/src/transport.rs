//! Transport adapter: performs register reads and writes over an I2C bus,
//! selecting the register's bank first and caching the last selected bank so
//! that repeated accesses to one bank select it only once.

use vstd::prelude::*;
use crate::address::{address_bank, decode_address, BANK_SENTINEL};
use crate::codec::{
    decode_field, encode_field, field_value_valid, field_wf, load_buffer, mask_bits,
    pack_fields, spec_decode_field, store_buffer, DecodeError, FieldDescriptor, FieldValue,
};
use crate::codec::{lemma_buffer_value_bound, lemma_insert_bits_in_width, lemma_pack_fields_in_width};
use crate::regmap::{readable, register_wf, writable, Access, RegisterDescriptor};

verus! {

/// In-bank offset of the bank-select register, reachable from every bank.
pub const REG_BANK_SEL: u8 = 0x76;

/// The widest register payload a single write carries: two data bytes beside
/// the offset byte.
pub const MAX_WRITE_PAYLOAD: usize = 2;

/// An error of one register access.
#[derive(Clone, Copy, PartialEq, Eq, Debug)]
pub enum Error<E> {
    /// The bus driver failed; its error is carried unchanged.
    Bus(E),
    /// A write to a read-only register, or a read of a write-only register.
    /// Raised before any bus traffic.
    AccessViolation,
    /// An enumeration field decoded to a pattern no variant covers.
    Decode(DecodeError),
}

/// The bus the adapter drives: plain I2C write and write-then-read
/// transactions against a 7-bit device address. Implemented outside this
/// crate by the platform's I2C driver; both operations may fail with the
/// driver's own error value.
pub trait I2cBus {
    /// The bus driver's error value, propagated unchanged.
    type BusError;

    /// Write `bytes` to the device at `device_addr` in one bus transaction.
    fn bus_write(&mut self, device_addr: u8, bytes: &Vec<u8>) -> Result<(), Self::BusError>;

    /// Write `bytes` to the device at `device_addr`, then read `read_len`
    /// bytes back, as one combined transaction with no other bus traffic in
    /// between.
    fn bus_write_read(&mut self, device_addr: u8, bytes: &Vec<u8>, read_len: usize) -> (r: Result<
        Vec<u8>,
        Self::BusError,
    >)
        ensures
            r matches Ok(data) ==> data@.len() == read_len,
    ;
}

/// The adapter: owns the bus connection, the device address, and the one
/// byte of session state — the last selected bank.
pub struct Icm42605Interface<B> {
    bus: B,
    addr: u8,
    bank: u8,
}

impl<B> Icm42605Interface<B> {
    /// The bus connection the adapter owns.
    pub closed spec fn bus_handle(&self) -> B {
        self.bus
    }

    /// The 7-bit device address the adapter talks to.
    pub closed spec fn device_addr(&self) -> u8 {
        self.addr
    }

    /// The last bank selected on the device, or `BANK_SENTINEL` when no
    /// bank-select is known to have succeeded.
    pub closed spec fn selected_bank(&self) -> u8 {
        self.bank
    }

    /// Construct an adapter over a bus connection. `ad0` is the state of the
    /// device's address-select pin, which picks one of the two device
    /// addresses the part can answer on. No bank is selected yet, so the
    /// first access will always issue a bank-select.
    pub fn new(bus: B, ad0: bool) -> (r: Self)
        ensures
            r.device_addr() == if ad0 {
                0x69u8
            } else {
                0x68u8
            },
            r.selected_bank() == BANK_SENTINEL,
            r.bus_handle() == bus,
    {
        proof {
            assert(0x68u8 | 1u8 == 0x69u8 && 0x68u8 | 0u8 == 0x68u8) by (bit_vector);
        }
        Self { bus, addr: 0x68u8 | if ad0 {
            1u8
        } else {
            0u8
        }, bank: 0xff }
    }
}

/// Whether an access to `target` from the state `current` must first write
/// the bank-select register. Shared by the blocking adapter here and by any
/// suspendable form of the same protocol.
pub fn needs_bank_select(current: u8, target: u8) -> (r: bool)
    ensures
        r == (current != target),
{
    current != target
}

/// The bus message that selects `bank`.
pub fn bank_select_message(bank: u8) -> (r: Vec<u8>)
    ensures
        r@ =~= seq![REG_BANK_SEL, bank],
{
    let mut r: Vec<u8> = Vec::new();
    r.push(REG_BANK_SEL);
    r.push(bank);
    r
}

/// The bus message that writes `data` to the register at in-bank offset
/// `offset`: the offset byte followed by the data bytes.
pub fn register_write_message(offset: u8, data: &Vec<u8>) -> (r: Vec<u8>)
    ensures
        r@ =~= seq![offset] + data@,
{
    let mut r: Vec<u8> = Vec::new();
    r.push(offset);
    let mut i: usize = 0;
    while i < data.len()
        invariant
            i <= data@.len(),
            r@ =~= seq![offset] + data@.take(i as int),
        decreases data@.len() - i,
    {
        r.push(data[i]);
        i = i + 1;
    }
    proof {
        assert(data@.take(data@.len() as int) =~= data@);
    }
    r
}

impl<B: I2cBus> Icm42605Interface<B> {
    /// Make `bank` the selected bank, writing the bank-select register only
    /// when the cached bank differs. On a bus failure nothing is assumed of
    /// the device's bank any more, so the next access re-selects.
    fn set_bank(&mut self, bank: u8) -> (r: Result<(), B::BusError>)
        requires
            bank != BANK_SENTINEL,
        ensures
            final(self).device_addr() == old(self).device_addr(),
            r is Ok ==> final(self).selected_bank() == bank,
            r is Err ==> final(self).selected_bank() == BANK_SENTINEL,
            old(self).selected_bank() == bank ==> r is Ok && *final(self) == *old(self),
    {
        if bank != self.bank {
            let msg = bank_select_message(bank);
            match self.bus.bus_write(self.addr, &msg) {
                Ok(()) => {
                    self.bank = bank;
                    Ok(())
                },
                Err(e) => {
                    self.bank = BANK_SENTINEL;
                    Err(e)
                },
            }
        } else {
            Ok(())
        }
    }

    /// Write up to `MAX_WRITE_PAYLOAD` register data bytes to an addressable
    /// unit: select the unit's bank if needed, then issue one bus write of
    /// the offset byte followed by the data.
    pub fn write_register(&mut self, address: u16, data: &Vec<u8>) -> (r: Result<
        (),
        B::BusError,
    >)
        requires
            data@.len() <= MAX_WRITE_PAYLOAD,
            address_bank(address) != BANK_SENTINEL,
        ensures
            final(self).device_addr() == old(self).device_addr(),
            r is Ok ==> final(self).selected_bank() == address_bank(address),
            r is Err ==> final(self).selected_bank() == BANK_SENTINEL || final(self).selected_bank() == address_bank(address),
            old(self).selected_bank() == address_bank(address) && r is Err ==> final(self).selected_bank() == address_bank(address),
    {
        let (offset, bank) = decode_address(address);
        match self.set_bank(bank) {
            Ok(()) => {},
            Err(e) => {
                return Err(e);
            },
        }
        let msg = register_write_message(offset, data);
        self.bus.bus_write(self.addr, &msg)
    }

    /// Read `len` register data bytes from an addressable unit: select the
    /// unit's bank if needed, then issue one combined write-then-read of the
    /// offset byte.
    pub fn read_register(&mut self, address: u16, len: usize) -> (r: Result<Vec<u8>, B::BusError>)
        requires
            address_bank(address) != BANK_SENTINEL,
        ensures
            final(self).device_addr() == old(self).device_addr(),
            r matches Ok(data) ==> data@.len() == len && final(self).selected_bank()
                == address_bank(address),
            r is Err ==> final(self).selected_bank() == BANK_SENTINEL || final(self).selected_bank() == address_bank(address),
            old(self).selected_bank() == address_bank(address) && r is Err ==> final(self).selected_bank() == address_bank(address),
    {
        let (offset, bank) = decode_address(address);
        match self.set_bank(bank) {
            Ok(()) => {},
            Err(e) => {
                return Err(e);
            },
        }
        let mut msg: Vec<u8> = Vec::new();
        msg.push(offset);
        self.bus.bus_write_read(self.addr, &msg, len)
    }

    /// Read a register's logical value: its bytes over the bus, reassembled
    /// under the register's byte order. Rejected before any bus traffic when
    /// the register is write-only.
    pub fn read_reg(&mut self, desc: &RegisterDescriptor) -> (r: Result<u32, Error<B::BusError>>)
        requires
            register_wf(*desc),
        ensures
            final(self).device_addr() == old(self).device_addr(),
            !readable(desc.access) ==> r == Err::<u32, Error<B::BusError>>(Error::AccessViolation)
                && *final(self) == *old(self),
            r matches Err(Error::AccessViolation) ==> !readable(desc.access),
            r matches Err(e) ==> !(e is Decode),
            r matches Ok(v) ==> readable(desc.access) && v <= mask_bits(desc.size_bits) && final(self).selected_bank() == address_bank(desc.address),
            old(self).selected_bank() == address_bank(desc.address) ==> final(self).selected_bank() == old(self).selected_bank(),
    {
        match desc.access {
            Access::WriteOnly => {
                return Err(Error::AccessViolation);
            },
            _ => {},
        }
        let count = (desc.size_bits / 8) as usize;
        match self.read_register(desc.address, count) {
            Ok(bytes) => {
                proof {
                    lemma_buffer_value_bound(bytes@, desc.byte_order);
                }
                Ok(load_buffer(&bytes, desc.byte_order))
            },
            Err(e) => Err(Error::Bus(e)),
        }
    }

    /// Write a register's logical value: its bytes under the register's byte
    /// order, in one bus write. Rejected before any bus traffic when the
    /// register is read-only. Registers wider than the transport's write
    /// payload bound cannot be written.
    pub fn write_reg(&mut self, desc: &RegisterDescriptor, value: u32) -> (r: Result<
        (),
        Error<B::BusError>,
    >)
        requires
            register_wf(*desc),
            desc.size_bits <= 8 * MAX_WRITE_PAYLOAD,
            value <= mask_bits(desc.size_bits),
        ensures
            final(self).device_addr() == old(self).device_addr(),
            !writable(desc.access) ==> r == Err::<(), Error<B::BusError>>(Error::AccessViolation)
                && *final(self) == *old(self),
            r matches Err(Error::AccessViolation) ==> !writable(desc.access),
            r is Ok ==> writable(desc.access) && final(self).selected_bank() == address_bank(
                desc.address,
            ),
            old(self).selected_bank() == address_bank(desc.address) ==> final(self).selected_bank() == old(self).selected_bank(),
    {
        match desc.access {
            Access::ReadOnly => {
                return Err(Error::AccessViolation);
            },
            _ => {},
        }
        let count = (desc.size_bits / 8) as usize;
        let bytes = store_buffer(value, count, desc.byte_order);
        match self.write_register(desc.address, &bytes) {
            Ok(()) => Ok(()),
            Err(e) => Err(Error::Bus(e)),
        }
    }

    /// Read one field of a register: read the register, then decode the
    /// field's bits. Rejected before any bus traffic when the register is
    /// write-only; fails with a decode error when the field is an
    /// enumeration and the read bits match no variant.
    pub fn read_field(&mut self, desc: &RegisterDescriptor, field: &FieldDescriptor) -> (r: Result<
        FieldValue,
        Error<B::BusError>,
    >)
        requires
            register_wf(*desc),
            field_wf(*field, desc.size_bits),
        ensures
            final(self).device_addr() == old(self).device_addr(),
            !readable(desc.access) ==> r == Err::<FieldValue, Error<B::BusError>>(
                Error::AccessViolation,
            ) && *final(self) == *old(self),
            r matches Err(Error::AccessViolation) ==> !readable(desc.access),
            r matches Err(Error::Decode(e)) ==> readable(desc.access) && (exists|reg: u32|
                spec_decode_field(*field, reg) == Err::<FieldValue, DecodeError>(e)),
            r matches Ok(v) ==> readable(desc.access) && final(self).selected_bank()
                == address_bank(desc.address) && (exists|reg: u32|
                reg <= mask_bits(desc.size_bits) && spec_decode_field(*field, reg) == Ok::<
                    FieldValue,
                    DecodeError,
                >(v)),
            old(self).selected_bank() == address_bank(desc.address) ==> final(self).selected_bank() == old(self).selected_bank(),
    {
        let reg = match self.read_reg(desc) {
            Ok(v) => v,
            Err(e) => {
                return Err(e);
            },
        };
        match decode_field(field, reg) {
            Ok(v) => {
                proof {
                    assert(reg <= mask_bits(desc.size_bits) && spec_decode_field(*field, reg)
                        == Ok::<FieldValue, DecodeError>(v));
                }
                Ok(v)
            },
            Err(e) => Err(Error::Decode(e)),
        }
    }

    /// Change one field of a register and no other: read the register,
    /// re-encode only the field's bits, write the whole register back. Not
    /// atomic across the two bus transactions. Rejected before any bus
    /// traffic unless the register is both readable and writable.
    pub fn modify_field(
        &mut self,
        desc: &RegisterDescriptor,
        field: &FieldDescriptor,
        value: &FieldValue,
    ) -> (r: Result<(), Error<B::BusError>>)
        requires
            register_wf(*desc),
            field_wf(*field, desc.size_bits),
            field_value_valid(*field, *value),
            desc.size_bits <= 8 * MAX_WRITE_PAYLOAD,
        ensures
            final(self).device_addr() == old(self).device_addr(),
            !(desc.access is ReadWrite) ==> r == Err::<(), Error<B::BusError>>(
                Error::AccessViolation,
            ) && *final(self) == *old(self),
            r matches Err(Error::AccessViolation) ==> !(desc.access is ReadWrite),
            r is Ok ==> desc.access is ReadWrite && final(self).selected_bank() == address_bank(
                desc.address,
            ),
            old(self).selected_bank() == address_bank(desc.address) ==> final(self).selected_bank() == old(self).selected_bank(),
    {
        match desc.access {
            Access::ReadWrite => {},
            _ => {
                return Err(Error::AccessViolation);
            },
        }
        let current = match self.read_reg(desc) {
            Ok(v) => v,
            Err(e) => {
                return Err(e);
            },
        };
        let updated = encode_field(field, value, current);
        proof {
            crate::codec::lemma_raw_of_value_in_range(*field, *value);
            lemma_insert_bits_in_width(
                current,
                field.offset,
                field.width,
                crate::codec::raw_of_value(*field, *value),
                desc.size_bits,
            );
        }
        self.write_reg(desc, updated)
    }

    /// Write a whole register at once: pack one value per field into a
    /// zeroed register value and write it in one bus transaction. Rejected
    /// before any bus traffic when the register is read-only.
    pub fn write_fields(&mut self, desc: &RegisterDescriptor, values: &Vec<FieldValue>) -> (r:
        Result<(), Error<B::BusError>>)
        requires
            register_wf(*desc),
            desc.size_bits <= 8 * MAX_WRITE_PAYLOAD,
            values@.len() == desc.fields@.len(),
            forall|i: int|
                0 <= i < values@.len() ==> field_value_valid(
                    #[trigger] desc.fields@[i],
                    values@[i],
                ),
        ensures
            final(self).device_addr() == old(self).device_addr(),
            !writable(desc.access) ==> r == Err::<(), Error<B::BusError>>(Error::AccessViolation)
                && *final(self) == *old(self),
            r matches Err(Error::AccessViolation) ==> !writable(desc.access),
            r is Ok ==> writable(desc.access) && final(self).selected_bank() == address_bank(
                desc.address,
            ),
            old(self).selected_bank() == address_bank(desc.address) ==> final(self).selected_bank() == old(self).selected_bank(),
    {
        match desc.access {
            Access::ReadOnly => {
                return Err(Error::AccessViolation);
            },
            _ => {},
        }
        proof {
            assert forall|i: int| 0 <= i < desc.fields@.len() implies field_wf(
                #[trigger] desc.fields@[i],
                32,
            ) && field_value_valid(desc.fields@[i], values@[i]) by {
                assert(field_wf(desc.fields@[i], desc.size_bits));
            }
        }
        let value = pack_fields(&desc.fields, values);
        proof {
            lemma_pack_fields_in_width(desc.fields@, values@, 0, desc.size_bits);
        }
        self.write_reg(desc, value)
    }
}

} // verus!
