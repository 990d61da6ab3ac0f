//! Spot checks of the register map against the device's data sheet values,
//! and a sweep over the whole table.

use icm42605::codec::{ByteOrder, FieldKind, VariantPattern};
use icm42605::registers::{
    accel_data_x, accel_wom_y_thr, all_registers, apex_config1, bank0_registers, bank1_registers,
    bank2_registers, bank4_registers, device_config, drive_config, fifo_lost_pkt, fifo_watermark,
    gyro_anti_alias_filter_config, intf_config0, intf_config5, pwr_mgmt, signal_path_reset,
    step_count, temp_data, tmst_val, who_am_i, xa_st_data,
};
use icm42605::regmap::Access;

#[test]
fn device_config_layout() {
    let r = device_config();
    assert_eq!(r.address, 0x0011);
    assert_eq!(r.size_bits, 8);
    assert_eq!(r.access, Access::ReadWrite);
    assert_eq!(r.byte_order, ByteOrder::BigEndian);
    assert_eq!(r.fields.len(), 2);
    assert_eq!(r.fields[0].offset, 4);
    assert_eq!(r.fields[0].width, 1);
    assert_eq!(r.fields[0].kind, FieldKind::Boolean);
    assert_eq!(r.fields[1].offset, 0);
}

#[test]
fn drive_config_reset_value() {
    let r = drive_config();
    assert_eq!(r.reset_value, 0x05);
    assert_eq!(r.fields[0].offset, 3);
    assert_eq!(r.fields[0].width, 3);
    assert_eq!(r.fields[1].offset, 0);
    assert_eq!(r.fields[1].width, 3);
}

#[test]
fn temp_data_is_a_signed_16_bit_read_only_register() {
    let r = temp_data();
    assert_eq!(r.address, 0x001d);
    assert_eq!(r.size_bits, 16);
    assert_eq!(r.access, Access::ReadOnly);
    assert_eq!(r.byte_order, ByteOrder::BigEndian);
    assert_eq!(r.fields.len(), 1);
    assert_eq!(r.fields[0].offset, 0);
    assert_eq!(r.fields[0].width, 16);
    assert_eq!(r.fields[0].kind, FieldKind::Signed);
}

#[test]
fn aliases_share_the_layout_at_their_own_address() {
    let base = temp_data();
    let alias = accel_data_x();
    assert_eq!(alias.address, 0x001f);
    assert_eq!(alias.size_bits, base.size_bits);
    assert_eq!(alias.access, base.access);
    assert_eq!(alias.fields, base.fields);

    // An alias may even sit in another bank than its base register.
    let cross_bank = xa_st_data();
    assert_eq!(cross_bank.address, 0x023b);
    assert_eq!(cross_bank.fields.len(), 1);

    let thr = accel_wom_y_thr();
    assert_eq!(thr.address, 0x044b);
}

#[test]
fn little_endian_registers() {
    assert_eq!(step_count().byte_order, ByteOrder::LittleEndian);
    assert_eq!(step_count().address, 0x0031);
    assert_eq!(fifo_watermark().byte_order, ByteOrder::LittleEndian);
    assert_eq!(fifo_watermark().fields[0].width, 12);
    assert_eq!(fifo_lost_pkt().byte_order, ByteOrder::LittleEndian);
    assert_eq!(tmst_val().fields[0].width, 20);
}

#[test]
fn banked_addresses() {
    assert_eq!(gyro_anti_alias_filter_config().address, 0x010c);
    assert_eq!(gyro_anti_alias_filter_config().size_bits, 24);
    assert_eq!(intf_config5().address, 0x017b);
    assert_eq!(apex_config1().address, 0x0440);
    assert_eq!(apex_config1().reset_value, 0xa2);
}

#[test]
fn write_only_register() {
    let r = signal_path_reset();
    assert_eq!(r.access, Access::WriteOnly);
    assert_eq!(r.address, 0x004b);
}

#[test]
fn who_am_i_is_read_only() {
    let r = who_am_i();
    assert_eq!(r.access, Access::ReadOnly);
    assert_eq!(r.address, 0x0075);
}

#[test]
fn catch_all_enumerations() {
    // ui_sifs_cfg: the catch-all is declared first, then patterns 2 and 3.
    let r = intf_config0();
    let f = &r.fields[4];
    assert_eq!(f.offset, 0);
    assert_eq!(f.width, 2);
    match &f.kind {
        FieldKind::Enumeration(e) => {
            assert_eq!(
                e.variants,
                vec![VariantPattern::CatchAll, VariantPattern::Exact(2), VariantPattern::Exact(3)]
            );
        },
        other => panic!("expected an enumeration, got {other:?}"),
    }
}

#[test]
fn pwr_mgmt_enumerations() {
    let r = pwr_mgmt();
    assert_eq!(r.address, 0x004e);
    assert_eq!(r.fields.len(), 4);
    match &r.fields[2].kind {
        FieldKind::Enumeration(e) => assert_eq!(e.variants.len(), 4),
        other => panic!("expected an enumeration, got {other:?}"),
    }
}

#[test]
fn the_whole_table_is_well_formed() {
    let regs = all_registers();
    assert_eq!(regs.len(), 90);
    for r in &regs {
        assert!(r.size_bits % 8 == 0 && r.size_bits >= 8 && r.size_bits <= 32);
        // Every register lives in a real bank.
        assert!(matches!(r.address >> 8, 0 | 1 | 2 | 4));
        let mut used: u32 = 0;
        for f in &r.fields {
            assert!(f.width >= 1);
            assert!(f.offset + f.width <= r.size_bits);
            let mask = if f.width == 32 { u32::MAX } else { ((1u32 << f.width) - 1) << f.offset };
            // No two fields of one register overlap.
            assert_eq!(used & mask, 0, "overlap in register at {:#x}", r.address);
            used |= mask;
            if let FieldKind::Enumeration(e) = &f.kind {
                let mut catch_alls = 0;
                for v in &e.variants {
                    match v {
                        VariantPattern::Exact(p) => assert!(*p < (1u32 << f.width)),
                        VariantPattern::CatchAll => catch_alls += 1,
                    }
                }
                assert!(catch_alls <= 1);
            }
        }
    }
}

#[test]
fn bank_tables_partition_the_map() {
    let mut joined = bank0_registers();
    joined.extend(bank1_registers());
    joined.extend(bank2_registers());
    joined.extend(bank4_registers());
    let all = all_registers();
    assert_eq!(joined.len(), all.len());
    for (a, b) in joined.iter().zip(all.iter()) {
        assert_eq!(a, b);
    }
    for (bank, regs) in
        [(0u16, bank0_registers()), (1, bank1_registers()), (2, bank2_registers()), (4, bank4_registers())]
    {
        assert!(regs.iter().all(|r| r.address >> 8 == bank));
    }
}
