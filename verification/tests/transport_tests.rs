//! The transport adapter against a stub bus driver that logs every bus
//! operation.

use std::cell::RefCell;
use std::rc::Rc;

use icm42605::codec::FieldValue;
use icm42605::registers::{device_config, gyro_config0, pwr_mgmt, signal_path_reset, temp_data, who_am_i};
use icm42605::transport::{
    bank_select_message, needs_bank_select, register_write_message, Error, I2cBus,
    Icm42605Interface, REG_BANK_SEL,
};

#[derive(Default)]
struct BusLog {
    /// Every plain write: (device address, bytes).
    writes: Vec<(u8, Vec<u8>)>,
    /// Every write-then-read: (device address, written bytes, read length).
    write_reads: Vec<(u8, Vec<u8>, usize)>,
    /// Queued responses for write-then-read operations.
    responses: Vec<Vec<u8>>,
    /// When set, every plain write fails with this error value.
    fail_writes: Option<u8>,
}

#[derive(Clone)]
struct StubBus(Rc<RefCell<BusLog>>);

impl StubBus {
    fn new() -> (StubBus, Rc<RefCell<BusLog>>) {
        let log = Rc::new(RefCell::new(BusLog::default()));
        (StubBus(log.clone()), log)
    }
}

impl I2cBus for StubBus {
    type BusError = u8;

    fn bus_write(&mut self, device_addr: u8, bytes: &Vec<u8>) -> Result<(), u8> {
        let mut log = self.0.borrow_mut();
        if let Some(e) = log.fail_writes {
            return Err(e);
        }
        log.writes.push((device_addr, bytes.clone()));
        Ok(())
    }

    fn bus_write_read(
        &mut self,
        device_addr: u8,
        bytes: &Vec<u8>,
        read_len: usize,
    ) -> Result<Vec<u8>, u8> {
        let mut log = self.0.borrow_mut();
        log.write_reads.push((device_addr, bytes.clone(), read_len));
        let r = log.responses.remove(0);
        assert_eq!(r.len(), read_len);
        Ok(r)
    }
}

fn bank_selects(log: &BusLog) -> Vec<u8> {
    log.writes
        .iter()
        .filter(|(_, b)| b.len() == 2 && b[0] == REG_BANK_SEL)
        .map(|(_, b)| b[1])
        .collect()
}

#[test]
fn helpers_build_the_bus_messages() {
    assert!(needs_bank_select(0xff, 0));
    assert!(!needs_bank_select(2, 2));
    assert_eq!(bank_select_message(4), vec![REG_BANK_SEL, 4]);
    assert_eq!(register_write_message(0x11, &vec![0xab, 0xcd]), vec![0x11, 0xab, 0xcd]);
}

#[test]
fn address_select_bit_picks_the_device_address() {
    let (bus, log) = StubBus::new();
    let mut dev = Icm42605Interface::new(bus, false);
    dev.write_register(0x0011, &vec![0x00]).unwrap();
    let (bus1, log1) = StubBus::new();
    let mut dev1 = Icm42605Interface::new(bus1, true);
    dev1.write_register(0x0011, &vec![0x00]).unwrap();
    assert!(log.borrow().writes.iter().all(|(a, _)| *a == 0x68));
    assert!(log1.borrow().writes.iter().all(|(a, _)| *a == 0x69));
}

#[test]
fn bank_select_sequence_is_minimal() {
    // Accesses to banks [2, 2, 0, 0, 1] issue exactly 3 bank selects, on the
    // 1st, 3rd and 5th accesses, with values 2, 0 and 1.
    let (bus, log) = StubBus::new();
    {
        let mut l = log.borrow_mut();
        l.responses = vec![vec![0], vec![0], vec![0], vec![0], vec![0]];
    }
    let mut dev = Icm42605Interface::new(bus, false);
    for address in [0x020c_u16, 0x023b, 0x0011, 0x0075, 0x017b] {
        dev.read_register(address, 1).unwrap();
    }
    let log = log.borrow();
    assert_eq!(bank_selects(&log), vec![2, 0, 1]);
    assert_eq!(log.writes.len(), 3);
    assert_eq!(log.write_reads.len(), 5);
}

#[test]
fn write_register_frames_offset_then_data() {
    let (bus, log) = StubBus::new();
    let mut dev = Icm42605Interface::new(bus, false);
    dev.write_register(0x0440, &vec![0xa2]).unwrap();
    let log = log.borrow();
    assert_eq!(log.writes.len(), 2);
    assert_eq!(log.writes[0].1, vec![REG_BANK_SEL, 4]);
    assert_eq!(log.writes[1].1, vec![0x40, 0xa2]);
}

#[test]
fn read_register_is_one_combined_write_then_read() {
    let (bus, log) = StubBus::new();
    log.borrow_mut().responses = vec![vec![0x12, 0x34]];
    let mut dev = Icm42605Interface::new(bus, false);
    let data = dev.read_register(0x001d, 2).unwrap();
    assert_eq!(data, vec![0x12, 0x34]);
    let log = log.borrow();
    assert_eq!(log.write_reads, vec![(0x68, vec![0x1d], 2)]);
}

#[test]
fn failed_bank_select_forces_a_reselect() {
    let (bus, log) = StubBus::new();
    log.borrow_mut().fail_writes = Some(9);
    let mut dev = Icm42605Interface::new(bus, false);
    assert_eq!(dev.write_register(0x0011, &vec![0]), Err(9));
    // The bus recovers; the next access selects the bank again.
    log.borrow_mut().fail_writes = None;
    dev.write_register(0x0011, &vec![0]).unwrap();
    let log = log.borrow();
    assert_eq!(bank_selects(&log), vec![0]);
}

#[test]
fn write_to_read_only_register_is_rejected_before_the_bus() {
    let (bus, log) = StubBus::new();
    let mut dev = Icm42605Interface::new(bus, false);
    assert_eq!(dev.write_reg(&temp_data(), 0), Err(Error::AccessViolation));
    assert_eq!(dev.write_fields(&who_am_i(), &vec![FieldValue::Unsigned(0)]), Err(Error::AccessViolation));
    let log = log.borrow();
    assert_eq!(log.writes.len(), 0);
    assert_eq!(log.write_reads.len(), 0);
}

#[test]
fn read_of_write_only_register_is_rejected_before_the_bus() {
    let (bus, log) = StubBus::new();
    let mut dev = Icm42605Interface::new(bus, false);
    assert_eq!(dev.read_reg(&signal_path_reset()), Err(Error::AccessViolation));
    let r = signal_path_reset();
    assert_eq!(dev.read_field(&r, &r.fields[0]), Err(Error::AccessViolation));
    let log = log.borrow();
    assert_eq!(log.writes.len(), 0);
    assert_eq!(log.write_reads.len(), 0);
}

#[test]
fn modify_of_one_way_register_is_rejected_before_the_bus() {
    let (bus, log) = StubBus::new();
    let mut dev = Icm42605Interface::new(bus, false);
    let r = temp_data();
    assert_eq!(
        dev.modify_field(&r, &r.fields[0], &FieldValue::Signed(0)),
        Err(Error::AccessViolation)
    );
    let log = log.borrow();
    assert_eq!(log.writes.len(), 0);
    assert_eq!(log.write_reads.len(), 0);
}

#[test]
fn end_to_end_signed_read() {
    // Construct an adapter, read a 2-byte big-endian read-only register whose
    // bus returns [0x80, 0x00], decoded as a signed value over all 16 bits:
    // the minimum 16-bit signed value.
    let (bus, log) = StubBus::new();
    log.borrow_mut().responses = vec![vec![0x80, 0x00]];
    let mut dev = Icm42605Interface::new(bus, false);
    let r = temp_data();
    let v = dev.read_field(&r, &r.fields[0]).unwrap();
    assert_eq!(v, FieldValue::Signed(-32768));
    let log = log.borrow();
    assert_eq!(bank_selects(&log), vec![0]);
    assert_eq!(log.write_reads, vec![(0x68, vec![0x1d], 2)]);
}

#[test]
fn modify_field_rewrites_only_the_targeted_field() {
    // pwr_mgmt holds temp_dis(5), idle(4), gyro_mode(2..4), accel_mode(0..2).
    // With every bit set on read-back, turning gyro_mode off must clear only
    // bits 2 and 3.
    let (bus, log) = StubBus::new();
    log.borrow_mut().responses = vec![vec![0xff]];
    let mut dev = Icm42605Interface::new(bus, false);
    let r = pwr_mgmt();
    dev.modify_field(&r, &r.fields[2], &FieldValue::Variant(0)).unwrap();
    let log = log.borrow();
    assert_eq!(log.write_reads, vec![(0x68, vec![0x4e], 1)]);
    assert_eq!(log.writes.last().unwrap().1, vec![0x4e, 0xf3]);
}

#[test]
fn whole_register_write_packs_every_field() {
    let (bus, log) = StubBus::new();
    let mut dev = Icm42605Interface::new(bus, false);
    let r = device_config();
    // spi_mode (bit 4) on, soft_reset_config (bit 0) off.
    dev.write_fields(&r, &vec![FieldValue::Flag(true), FieldValue::Flag(false)]).unwrap();
    let log = log.borrow();
    assert_eq!(log.writes.last().unwrap().1, vec![0x11, 0x10]);
}

#[test]
fn catch_all_enumeration_reads_from_the_map() {
    // gyro_config0.gyro_odr declares `Reserved` as a catch-all ahead of the
    // explicit rates 3..15: rates 0, 1 and 2 decode to the catch-all.
    let r = gyro_config0();
    let odr = &r.fields[1];
    for (raw, variant) in [(0u8, 0usize), (1, 0), (2, 0), (3, 1), (15, 13)] {
        let (bus, log) = StubBus::new();
        log.borrow_mut().responses = vec![vec![raw]];
        let mut dev = Icm42605Interface::new(bus, false);
        assert_eq!(dev.read_field(&r, odr), Ok(FieldValue::Variant(variant)));
    }
}

#[test]
fn bus_errors_propagate_unchanged() {
    let (bus, log) = StubBus::new();
    log.borrow_mut().fail_writes = Some(42);
    let mut dev = Icm42605Interface::new(bus, false);
    assert_eq!(dev.write_reg(&device_config(), 0), Err(Error::Bus(42)));
}
