//! The register map of the device: one descriptor-constructor function per
//! register, grouped by bank. Aliased registers that repeat another's layout
//! at a different address are independent descriptors of their own.
//!
//! Every constructor proves that the descriptor it returns is well formed:
//! whole-byte width, every field inside the register, no two fields
//! overlapping, and every enumeration pattern within its field's width.

use vstd::prelude::*;
use crate::codec::{
    enum_wf, lemma_mask_values, ByteOrder, EnumDef, FieldDescriptor, FieldKind, VariantPattern,
};
use crate::regmap::{register_wf, Access, RegisterDescriptor};

verus! {

/// Variant list of the `FifoMode` enumeration, in declaration order:
/// `Bypass`, `Stream`, `StopOnFull`, `Reserved`.
pub fn enum_fifo_mode() -> (e: EnumDef)
    ensures
        e.variants@ =~= seq![
            VariantPattern::Exact(0),
            VariantPattern::Exact(1),
            VariantPattern::Exact(2),
            VariantPattern::Exact(3),
        ],
        enum_wf(e, 2),
{
    let mut v: Vec<VariantPattern> = Vec::new();
    v.push(VariantPattern::Exact(0));
    v.push(VariantPattern::Exact(1));
    v.push(VariantPattern::Exact(2));
    v.push(VariantPattern::Exact(3));
    let e = EnumDef { variants: v };
    proof {
        lemma_mask_values();
        assert(enum_wf(e, 2));
    }
    e
}

/// Variant list of the `ActivityClass` enumeration, in declaration order:
/// `Unknown`, `Walk`, `Run`, `Reserved`.
pub fn enum_activity_class() -> (e: EnumDef)
    ensures
        e.variants@ =~= seq![
            VariantPattern::Exact(0),
            VariantPattern::Exact(1),
            VariantPattern::Exact(2),
            VariantPattern::Exact(3),
        ],
        enum_wf(e, 2),
{
    let mut v: Vec<VariantPattern> = Vec::new();
    v.push(VariantPattern::Exact(0));
    v.push(VariantPattern::Exact(1));
    v.push(VariantPattern::Exact(2));
    v.push(VariantPattern::Exact(3));
    let e = EnumDef { variants: v };
    proof {
        lemma_mask_values();
        assert(enum_wf(e, 2));
    }
    e
}

/// Variant list of the `TapNum` enumeration, in declaration order:
/// `NoTap`, `Single`, `Double`, `Reserved`.
pub fn enum_tap_num() -> (e: EnumDef)
    ensures
        e.variants@ =~= seq![
            VariantPattern::Exact(0),
            VariantPattern::Exact(1),
            VariantPattern::Exact(2),
            VariantPattern::Exact(3),
        ],
        enum_wf(e, 2),
{
    let mut v: Vec<VariantPattern> = Vec::new();
    v.push(VariantPattern::Exact(0));
    v.push(VariantPattern::Exact(1));
    v.push(VariantPattern::Exact(2));
    v.push(VariantPattern::Exact(3));
    let e = EnumDef { variants: v };
    proof {
        lemma_mask_values();
        assert(enum_wf(e, 2));
    }
    e
}

/// Variant list of the `Axis` enumeration, in declaration order:
/// `X`, `Y`, `Z`, `Reserved`.
pub fn enum_axis() -> (e: EnumDef)
    ensures
        e.variants@ =~= seq![
            VariantPattern::Exact(0),
            VariantPattern::Exact(1),
            VariantPattern::Exact(2),
            VariantPattern::Exact(3),
        ],
        enum_wf(e, 2),
{
    let mut v: Vec<VariantPattern> = Vec::new();
    v.push(VariantPattern::Exact(0));
    v.push(VariantPattern::Exact(1));
    v.push(VariantPattern::Exact(2));
    v.push(VariantPattern::Exact(3));
    let e = EnumDef { variants: v };
    proof {
        lemma_mask_values();
        assert(enum_wf(e, 2));
    }
    e
}

/// Variant list of the `Polarity` enumeration, in declaration order:
/// `Positive`, `Negative`.
pub fn enum_polarity() -> (e: EnumDef)
    ensures
        e.variants@ =~= seq![
            VariantPattern::Exact(0),
            VariantPattern::Exact(1),
        ],
        enum_wf(e, 1),
{
    let mut v: Vec<VariantPattern> = Vec::new();
    v.push(VariantPattern::Exact(0));
    v.push(VariantPattern::Exact(1));
    let e = EnumDef { variants: v };
    proof {
        lemma_mask_values();
        assert(enum_wf(e, 1));
    }
    e
}

/// Variant list of the `FifoCountRec` enumeration, in declaration order:
/// `Bytes`, `Records`.
pub fn enum_fifo_count_rec() -> (e: EnumDef)
    ensures
        e.variants@ =~= seq![
            VariantPattern::Exact(0),
            VariantPattern::Exact(1),
        ],
        enum_wf(e, 1),
{
    let mut v: Vec<VariantPattern> = Vec::new();
    v.push(VariantPattern::Exact(0));
    v.push(VariantPattern::Exact(1));
    let e = EnumDef { variants: v };
    proof {
        lemma_mask_values();
        assert(enum_wf(e, 1));
    }
    e
}

/// Variant list of the `Endian` enumeration, in declaration order:
/// `LittleEndian`, `BigEndian`.
pub fn enum_endian() -> (e: EnumDef)
    ensures
        e.variants@ =~= seq![
            VariantPattern::Exact(0),
            VariantPattern::Exact(1),
        ],
        enum_wf(e, 1),
{
    let mut v: Vec<VariantPattern> = Vec::new();
    v.push(VariantPattern::Exact(0));
    v.push(VariantPattern::Exact(1));
    let e = EnumDef { variants: v };
    proof {
        lemma_mask_values();
        assert(enum_wf(e, 1));
    }
    e
}

/// Variant list of the `UiSifsCfg` enumeration, in declaration order:
/// `Reserved`, `DisableSpi`, `DisableI2c`.
pub fn enum_ui_sifs_cfg() -> (e: EnumDef)
    ensures
        e.variants@ =~= seq![
            VariantPattern::CatchAll,
            VariantPattern::Exact(2),
            VariantPattern::Exact(3),
        ],
        enum_wf(e, 2),
{
    let mut v: Vec<VariantPattern> = Vec::new();
    v.push(VariantPattern::CatchAll);
    v.push(VariantPattern::Exact(2));
    v.push(VariantPattern::Exact(3));
    let e = EnumDef { variants: v };
    proof {
        lemma_mask_values();
        assert(enum_wf(e, 2));
    }
    e
}

/// Variant list of the `AccelLpClkSel` enumeration, in declaration order:
/// `WakeUp`, `Rc`.
pub fn enum_accel_lp_clk_sel() -> (e: EnumDef)
    ensures
        e.variants@ =~= seq![
            VariantPattern::Exact(0),
            VariantPattern::Exact(1),
        ],
        enum_wf(e, 1),
{
    let mut v: Vec<VariantPattern> = Vec::new();
    v.push(VariantPattern::Exact(0));
    v.push(VariantPattern::Exact(1));
    let e = EnumDef { variants: v };
    proof {
        lemma_mask_values();
        assert(enum_wf(e, 1));
    }
    e
}

/// Variant list of the `ClkSel` enumeration, in declaration order:
/// `InternalRc`, `PllOrRc`, `Reserved`, `Disable`.
pub fn enum_clk_sel() -> (e: EnumDef)
    ensures
        e.variants@ =~= seq![
            VariantPattern::Exact(0),
            VariantPattern::Exact(1),
            VariantPattern::Exact(2),
            VariantPattern::Exact(3),
        ],
        enum_wf(e, 2),
{
    let mut v: Vec<VariantPattern> = Vec::new();
    v.push(VariantPattern::Exact(0));
    v.push(VariantPattern::Exact(1));
    v.push(VariantPattern::Exact(2));
    v.push(VariantPattern::Exact(3));
    let e = EnumDef { variants: v };
    proof {
        lemma_mask_values();
        assert(enum_wf(e, 2));
    }
    e
}

/// Variant list of the `GyroMode` enumeration, in declaration order:
/// `Off`, `Standby`, `Reserved`, `LowNoise`.
pub fn enum_gyro_mode() -> (e: EnumDef)
    ensures
        e.variants@ =~= seq![
            VariantPattern::Exact(0),
            VariantPattern::Exact(1),
            VariantPattern::Exact(2),
            VariantPattern::Exact(3),
        ],
        enum_wf(e, 2),
{
    let mut v: Vec<VariantPattern> = Vec::new();
    v.push(VariantPattern::Exact(0));
    v.push(VariantPattern::Exact(1));
    v.push(VariantPattern::Exact(2));
    v.push(VariantPattern::Exact(3));
    let e = EnumDef { variants: v };
    proof {
        lemma_mask_values();
        assert(enum_wf(e, 2));
    }
    e
}

/// Variant list of the `AccelMode` enumeration, in declaration order:
/// `Off`, `Reserved`, `LowPower`, `LowNoise`.
pub fn enum_accel_mode() -> (e: EnumDef)
    ensures
        e.variants@ =~= seq![
            VariantPattern::Exact(0),
            VariantPattern::Exact(1),
            VariantPattern::Exact(2),
            VariantPattern::Exact(3),
        ],
        enum_wf(e, 2),
{
    let mut v: Vec<VariantPattern> = Vec::new();
    v.push(VariantPattern::Exact(0));
    v.push(VariantPattern::Exact(1));
    v.push(VariantPattern::Exact(2));
    v.push(VariantPattern::Exact(3));
    let e = EnumDef { variants: v };
    proof {
        lemma_mask_values();
        assert(enum_wf(e, 2));
    }
    e
}

/// Variant list of the `GyroFullScale` enumeration, in declaration order:
/// `DegreesPerSec2000`, `DegreesPerSec1000`, `DegreesPerSec500`, `DegreesPerSec250`, `DegreesPerSec125`, `DegreesPerSec62x5`, `DegreesPerSec31x25`, `DegreesPerSec15x625`.
pub fn enum_gyro_full_scale() -> (e: EnumDef)
    ensures
        e.variants@ =~= seq![
            VariantPattern::Exact(0),
            VariantPattern::Exact(1),
            VariantPattern::Exact(2),
            VariantPattern::Exact(3),
            VariantPattern::Exact(4),
            VariantPattern::Exact(5),
            VariantPattern::Exact(6),
            VariantPattern::Exact(7),
        ],
        enum_wf(e, 3),
{
    let mut v: Vec<VariantPattern> = Vec::new();
    v.push(VariantPattern::Exact(0));
    v.push(VariantPattern::Exact(1));
    v.push(VariantPattern::Exact(2));
    v.push(VariantPattern::Exact(3));
    v.push(VariantPattern::Exact(4));
    v.push(VariantPattern::Exact(5));
    v.push(VariantPattern::Exact(6));
    v.push(VariantPattern::Exact(7));
    let e = EnumDef { variants: v };
    proof {
        lemma_mask_values();
        assert(enum_wf(e, 3));
    }
    e
}

/// Variant list of the `DataRate` enumeration, in declaration order:
/// `Reserved`, `Hz8000`, `Hz4000`, `Hz2000`, `Hz1000`, `Hz200`, `Hz100`, `Hz50`, `Hz25`, `Hz12x5`, `Hz6x25`, `Hz3x125`, `Hz1x15625`, `Hz500`.
pub fn enum_data_rate() -> (e: EnumDef)
    ensures
        e.variants@ =~= seq![
            VariantPattern::CatchAll,
            VariantPattern::Exact(3),
            VariantPattern::Exact(4),
            VariantPattern::Exact(5),
            VariantPattern::Exact(6),
            VariantPattern::Exact(7),
            VariantPattern::Exact(8),
            VariantPattern::Exact(9),
            VariantPattern::Exact(10),
            VariantPattern::Exact(11),
            VariantPattern::Exact(12),
            VariantPattern::Exact(13),
            VariantPattern::Exact(14),
            VariantPattern::Exact(15),
        ],
        enum_wf(e, 4),
{
    let mut v: Vec<VariantPattern> = Vec::new();
    v.push(VariantPattern::CatchAll);
    v.push(VariantPattern::Exact(3));
    v.push(VariantPattern::Exact(4));
    v.push(VariantPattern::Exact(5));
    v.push(VariantPattern::Exact(6));
    v.push(VariantPattern::Exact(7));
    v.push(VariantPattern::Exact(8));
    v.push(VariantPattern::Exact(9));
    v.push(VariantPattern::Exact(10));
    v.push(VariantPattern::Exact(11));
    v.push(VariantPattern::Exact(12));
    v.push(VariantPattern::Exact(13));
    v.push(VariantPattern::Exact(14));
    v.push(VariantPattern::Exact(15));
    let e = EnumDef { variants: v };
    proof {
        lemma_mask_values();
        assert(enum_wf(e, 4));
    }
    e
}

/// Variant list of the `AccelFullScale` enumeration, in declaration order:
/// `Max16G`, `Max8G`, `Max4G`, `Max2G`, `Reserved`.
pub fn enum_accel_full_scale() -> (e: EnumDef)
    ensures
        e.variants@ =~= seq![
            VariantPattern::Exact(0),
            VariantPattern::Exact(1),
            VariantPattern::Exact(2),
            VariantPattern::Exact(3),
            VariantPattern::CatchAll,
        ],
        enum_wf(e, 3),
{
    let mut v: Vec<VariantPattern> = Vec::new();
    v.push(VariantPattern::Exact(0));
    v.push(VariantPattern::Exact(1));
    v.push(VariantPattern::Exact(2));
    v.push(VariantPattern::Exact(3));
    v.push(VariantPattern::CatchAll);
    let e = EnumDef { variants: v };
    proof {
        lemma_mask_values();
        assert(enum_wf(e, 3));
    }
    e
}

/// Variant list of the `LowPassFilterLatency` enumeration, in declaration order:
/// `Latency125ms`, `Latency1ms`, `Latency2ms`, `Latency4ms`, `Latency8ms`, `Latency16ms`, `Latency32ms`, `Reserved`.
pub fn enum_low_pass_filter_latency() -> (e: EnumDef)
    ensures
        e.variants@ =~= seq![
            VariantPattern::Exact(0),
            VariantPattern::Exact(1),
            VariantPattern::Exact(2),
            VariantPattern::Exact(3),
            VariantPattern::Exact(4),
            VariantPattern::Exact(5),
            VariantPattern::Exact(6),
            VariantPattern::Exact(7),
        ],
        enum_wf(e, 3),
{
    let mut v: Vec<VariantPattern> = Vec::new();
    v.push(VariantPattern::Exact(0));
    v.push(VariantPattern::Exact(1));
    v.push(VariantPattern::Exact(2));
    v.push(VariantPattern::Exact(3));
    v.push(VariantPattern::Exact(4));
    v.push(VariantPattern::Exact(5));
    v.push(VariantPattern::Exact(6));
    v.push(VariantPattern::Exact(7));
    let e = EnumDef { variants: v };
    proof {
        lemma_mask_values();
        assert(enum_wf(e, 3));
    }
    e
}

/// Variant list of the `UiFilterOrder` enumeration, in declaration order:
/// `FirstOrder`, `SecondOrder`, `ThirdOrder`, `Reserved`.
pub fn enum_ui_filter_order() -> (e: EnumDef)
    ensures
        e.variants@ =~= seq![
            VariantPattern::Exact(0),
            VariantPattern::Exact(1),
            VariantPattern::Exact(2),
            VariantPattern::Exact(3),
        ],
        enum_wf(e, 2),
{
    let mut v: Vec<VariantPattern> = Vec::new();
    v.push(VariantPattern::Exact(0));
    v.push(VariantPattern::Exact(1));
    v.push(VariantPattern::Exact(2));
    v.push(VariantPattern::Exact(3));
    let e = EnumDef { variants: v };
    proof {
        lemma_mask_values();
        assert(enum_wf(e, 2));
    }
    e
}

/// Variant list of the `Dec2M2FilterOrder` enumeration, in declaration order:
/// `Reserved`, `ThirdOrder`.
pub fn enum_dec2_m2_filter_order() -> (e: EnumDef)
    ensures
        e.variants@ =~= seq![
            VariantPattern::CatchAll,
            VariantPattern::Exact(2),
        ],
        enum_wf(e, 2),
{
    let mut v: Vec<VariantPattern> = Vec::new();
    v.push(VariantPattern::CatchAll);
    v.push(VariantPattern::Exact(2));
    let e = EnumDef { variants: v };
    proof {
        lemma_mask_values();
        assert(enum_wf(e, 2));
    }
    e
}

/// Variant list of the `DmpDataRate` enumeration, in declaration order:
/// `Hz25`, `Reserved`, `Hz50`.
pub fn enum_dmp_data_rate() -> (e: EnumDef)
    ensures
        e.variants@ =~= seq![
            VariantPattern::Exact(0),
            VariantPattern::CatchAll,
            VariantPattern::Exact(2),
        ],
        enum_wf(e, 2),
{
    let mut v: Vec<VariantPattern> = Vec::new();
    v.push(VariantPattern::Exact(0));
    v.push(VariantPattern::CatchAll);
    v.push(VariantPattern::Exact(2));
    let e = EnumDef { variants: v };
    proof {
        lemma_mask_values();
        assert(enum_wf(e, 2));
    }
    e
}

/// Variant list of the `SmdMode` enumeration, in declaration order:
/// `Disabled`, `WakeOnMotion`, `Short`, `Long`.
pub fn enum_smd_mode() -> (e: EnumDef)
    ensures
        e.variants@ =~= seq![
            VariantPattern::Exact(0),
            VariantPattern::Exact(1),
            VariantPattern::Exact(2),
            VariantPattern::Exact(3),
        ],
        enum_wf(e, 2),
{
    let mut v: Vec<VariantPattern> = Vec::new();
    v.push(VariantPattern::Exact(0));
    v.push(VariantPattern::Exact(1));
    v.push(VariantPattern::Exact(2));
    v.push(VariantPattern::Exact(3));
    let e = EnumDef { variants: v };
    proof {
        lemma_mask_values();
        assert(enum_wf(e, 2));
    }
    e
}

/// Variant list of the `FsyncFlag` enumeration, in declaration order:
/// `Disabled`, `Temp`, `GyroX`, `GyroY`, `GyroZ`, `AccelX`, `AccelY`, `AccelZ`.
pub fn enum_fsync_flag() -> (e: EnumDef)
    ensures
        e.variants@ =~= seq![
            VariantPattern::Exact(0),
            VariantPattern::Exact(1),
            VariantPattern::Exact(2),
            VariantPattern::Exact(3),
            VariantPattern::Exact(4),
            VariantPattern::Exact(5),
            VariantPattern::Exact(6),
            VariantPattern::Exact(7),
        ],
        enum_wf(e, 3),
{
    let mut v: Vec<VariantPattern> = Vec::new();
    v.push(VariantPattern::Exact(0));
    v.push(VariantPattern::Exact(1));
    v.push(VariantPattern::Exact(2));
    v.push(VariantPattern::Exact(3));
    v.push(VariantPattern::Exact(4));
    v.push(VariantPattern::Exact(5));
    v.push(VariantPattern::Exact(6));
    v.push(VariantPattern::Exact(7));
    let e = EnumDef { variants: v };
    proof {
        lemma_mask_values();
        assert(enum_wf(e, 3));
    }
    e
}

/// Variant list of the `IntClearOption` enumeration, in declaration order:
/// `StatusBitRead`, `Reserved`, `SensorRegisterRead`, `Both`.
pub fn enum_int_clear_option() -> (e: EnumDef)
    ensures
        e.variants@ =~= seq![
            VariantPattern::Exact(0),
            VariantPattern::Exact(1),
            VariantPattern::Exact(2),
            VariantPattern::Exact(3),
        ],
        enum_wf(e, 2),
{
    let mut v: Vec<VariantPattern> = Vec::new();
    v.push(VariantPattern::Exact(0));
    v.push(VariantPattern::Exact(1));
    v.push(VariantPattern::Exact(2));
    v.push(VariantPattern::Exact(3));
    let e = EnumDef { variants: v };
    proof {
        lemma_mask_values();
        assert(enum_wf(e, 2));
    }
    e
}

/// Variant list of the `Pin9Function` enumeration, in declaration order:
/// `Int2`, `FSync`, `Reserved`.
pub fn enum_pin9_function() -> (e: EnumDef)
    ensures
        e.variants@ =~= seq![
            VariantPattern::Exact(0),
            VariantPattern::Exact(1),
            VariantPattern::CatchAll,
        ],
        enum_wf(e, 2),
{
    let mut v: Vec<VariantPattern> = Vec::new();
    v.push(VariantPattern::Exact(0));
    v.push(VariantPattern::Exact(1));
    v.push(VariantPattern::CatchAll);
    let e = EnumDef { variants: v };
    proof {
        lemma_mask_values();
        assert(enum_wf(e, 2));
    }
    e
}

/// The `DeviceConfig` register of bank 0, at in-bank offset 0x11.
/// Fields, in declaration order: `spi_mode`, `soft_reset_config`.
pub fn device_config() -> (r: RegisterDescriptor)
    ensures
        register_wf(r),
        r.address == 0x0011,
        r.size_bits == 8,
        r.access is ReadWrite,
        r.byte_order is BigEndian,
        r.reset_value == 0x00,
        r.fields@.len() == 2,
        r.fields@[0] == (FieldDescriptor { offset: 4, width: 1, kind: FieldKind::Boolean }),
        r.fields@[1] == (FieldDescriptor { offset: 0, width: 1, kind: FieldKind::Boolean }),
{
    let mut fields: Vec<FieldDescriptor> = Vec::new();
    fields.push(FieldDescriptor { offset: 4, width: 1, kind: FieldKind::Boolean });
    fields.push(FieldDescriptor { offset: 0, width: 1, kind: FieldKind::Boolean });
    let r = RegisterDescriptor {
        address: 0x0011,
        size_bits: 8,
        access: Access::ReadWrite,
        byte_order: ByteOrder::BigEndian,
        reset_value: 0x00,
        fields,
    };
    proof {
        lemma_mask_values();
        assert(register_wf(r));
    }
    r
}

/// The `DriveConfig` register of bank 0, at in-bank offset 0x13.
/// Fields, in declaration order: `i2c_slew_rate`, `spi_slew_rate`.
pub fn drive_config() -> (r: RegisterDescriptor)
    ensures
        register_wf(r),
        r.address == 0x0013,
        r.size_bits == 8,
        r.access is ReadWrite,
        r.byte_order is BigEndian,
        r.reset_value == 0x05,
        r.fields@.len() == 2,
        r.fields@[0] == (FieldDescriptor { offset: 3, width: 3, kind: FieldKind::Unsigned }),
        r.fields@[1] == (FieldDescriptor { offset: 0, width: 3, kind: FieldKind::Unsigned }),
{
    let mut fields: Vec<FieldDescriptor> = Vec::new();
    fields.push(FieldDescriptor { offset: 3, width: 3, kind: FieldKind::Unsigned });
    fields.push(FieldDescriptor { offset: 0, width: 3, kind: FieldKind::Unsigned });
    let r = RegisterDescriptor {
        address: 0x0013,
        size_bits: 8,
        access: Access::ReadWrite,
        byte_order: ByteOrder::BigEndian,
        reset_value: 0x05,
        fields,
    };
    proof {
        lemma_mask_values();
        assert(register_wf(r));
    }
    r
}

/// The `IntConfig` register of bank 0, at in-bank offset 0x14.
/// Fields, in declaration order: `int2_mode`, `int2_drive_circuit`, `int2_polarity`, `int1_mode`, `int1_drive_circuit`, `int1_polarity`.
pub fn int_config() -> (r: RegisterDescriptor)
    ensures
        register_wf(r),
        r.address == 0x0014,
        r.size_bits == 8,
        r.access is ReadWrite,
        r.byte_order is BigEndian,
        r.reset_value == 0x00,
        r.fields@.len() == 6,
        r.fields@[0] == (FieldDescriptor { offset: 5, width: 1, kind: FieldKind::Boolean }),
        r.fields@[1] == (FieldDescriptor { offset: 4, width: 1, kind: FieldKind::Boolean }),
        r.fields@[2] == (FieldDescriptor { offset: 3, width: 1, kind: FieldKind::Boolean }),
        r.fields@[3] == (FieldDescriptor { offset: 2, width: 1, kind: FieldKind::Boolean }),
        r.fields@[4] == (FieldDescriptor { offset: 1, width: 1, kind: FieldKind::Boolean }),
        r.fields@[5] == (FieldDescriptor { offset: 0, width: 1, kind: FieldKind::Boolean }),
{
    let mut fields: Vec<FieldDescriptor> = Vec::new();
    fields.push(FieldDescriptor { offset: 5, width: 1, kind: FieldKind::Boolean });
    fields.push(FieldDescriptor { offset: 4, width: 1, kind: FieldKind::Boolean });
    fields.push(FieldDescriptor { offset: 3, width: 1, kind: FieldKind::Boolean });
    fields.push(FieldDescriptor { offset: 2, width: 1, kind: FieldKind::Boolean });
    fields.push(FieldDescriptor { offset: 1, width: 1, kind: FieldKind::Boolean });
    fields.push(FieldDescriptor { offset: 0, width: 1, kind: FieldKind::Boolean });
    let r = RegisterDescriptor {
        address: 0x0014,
        size_bits: 8,
        access: Access::ReadWrite,
        byte_order: ByteOrder::BigEndian,
        reset_value: 0x00,
        fields,
    };
    proof {
        lemma_mask_values();
        assert(register_wf(r));
    }
    r
}

/// The `FifoConfig` register of bank 0, at in-bank offset 0x16.
/// Fields, in declaration order: `fifo_mode`.
pub fn fifo_config() -> (r: RegisterDescriptor)
    ensures
        register_wf(r),
        r.address == 0x0016,
        r.size_bits == 8,
        r.access is ReadWrite,
        r.byte_order is BigEndian,
        r.reset_value == 0x00,
        r.fields@.len() == 1,
        r.fields@[0].offset == 6,
        r.fields@[0].width == 2,
        r.fields@[0].kind matches FieldKind::Enumeration(e) && e.variants@ =~= seq![
            VariantPattern::Exact(0),
            VariantPattern::Exact(1),
            VariantPattern::Exact(2),
            VariantPattern::Exact(3),
        ],
{
    let mut fields: Vec<FieldDescriptor> = Vec::new();
    fields.push(FieldDescriptor { offset: 6, width: 2, kind: FieldKind::Enumeration(enum_fifo_mode()) });
    let r = RegisterDescriptor {
        address: 0x0016,
        size_bits: 8,
        access: Access::ReadWrite,
        byte_order: ByteOrder::BigEndian,
        reset_value: 0x00,
        fields,
    };
    proof {
        lemma_mask_values();
        assert(register_wf(r));
    }
    r
}

/// The `TempData` register of bank 0, at in-bank offset 0x1d.
/// Fields, in declaration order: `value`.
pub fn temp_data() -> (r: RegisterDescriptor)
    ensures
        register_wf(r),
        r.address == 0x001d,
        r.size_bits == 16,
        r.access is ReadOnly,
        r.byte_order is BigEndian,
        r.reset_value == 0x8000,
        r.fields@.len() == 1,
        r.fields@[0] == (FieldDescriptor { offset: 0, width: 16, kind: FieldKind::Signed }),
{
    let mut fields: Vec<FieldDescriptor> = Vec::new();
    fields.push(FieldDescriptor { offset: 0, width: 16, kind: FieldKind::Signed });
    let r = RegisterDescriptor {
        address: 0x001d,
        size_bits: 16,
        access: Access::ReadOnly,
        byte_order: ByteOrder::BigEndian,
        reset_value: 0x8000,
        fields,
    };
    proof {
        lemma_mask_values();
        assert(register_wf(r));
    }
    r
}

/// The `AccelDataX` register of bank 0, at in-bank offset 0x1f.
/// Fields, in declaration order: `value`.
pub fn accel_data_x() -> (r: RegisterDescriptor)
    ensures
        register_wf(r),
        r.address == 0x001f,
        r.size_bits == 16,
        r.access is ReadOnly,
        r.byte_order is BigEndian,
        r.reset_value == 0x8000,
        r.fields@.len() == 1,
        r.fields@[0] == (FieldDescriptor { offset: 0, width: 16, kind: FieldKind::Signed }),
{
    let mut fields: Vec<FieldDescriptor> = Vec::new();
    fields.push(FieldDescriptor { offset: 0, width: 16, kind: FieldKind::Signed });
    let r = RegisterDescriptor {
        address: 0x001f,
        size_bits: 16,
        access: Access::ReadOnly,
        byte_order: ByteOrder::BigEndian,
        reset_value: 0x8000,
        fields,
    };
    proof {
        lemma_mask_values();
        assert(register_wf(r));
    }
    r
}

/// The `AccelDataY` register of bank 0, at in-bank offset 0x21.
/// Fields, in declaration order: `value`.
pub fn accel_data_y() -> (r: RegisterDescriptor)
    ensures
        register_wf(r),
        r.address == 0x0021,
        r.size_bits == 16,
        r.access is ReadOnly,
        r.byte_order is BigEndian,
        r.reset_value == 0x8000,
        r.fields@.len() == 1,
        r.fields@[0] == (FieldDescriptor { offset: 0, width: 16, kind: FieldKind::Signed }),
{
    let mut fields: Vec<FieldDescriptor> = Vec::new();
    fields.push(FieldDescriptor { offset: 0, width: 16, kind: FieldKind::Signed });
    let r = RegisterDescriptor {
        address: 0x0021,
        size_bits: 16,
        access: Access::ReadOnly,
        byte_order: ByteOrder::BigEndian,
        reset_value: 0x8000,
        fields,
    };
    proof {
        lemma_mask_values();
        assert(register_wf(r));
    }
    r
}

/// The `AccelDataZ` register of bank 0, at in-bank offset 0x23.
/// Fields, in declaration order: `value`.
pub fn accel_data_z() -> (r: RegisterDescriptor)
    ensures
        register_wf(r),
        r.address == 0x0023,
        r.size_bits == 16,
        r.access is ReadOnly,
        r.byte_order is BigEndian,
        r.reset_value == 0x8000,
        r.fields@.len() == 1,
        r.fields@[0] == (FieldDescriptor { offset: 0, width: 16, kind: FieldKind::Signed }),
{
    let mut fields: Vec<FieldDescriptor> = Vec::new();
    fields.push(FieldDescriptor { offset: 0, width: 16, kind: FieldKind::Signed });
    let r = RegisterDescriptor {
        address: 0x0023,
        size_bits: 16,
        access: Access::ReadOnly,
        byte_order: ByteOrder::BigEndian,
        reset_value: 0x8000,
        fields,
    };
    proof {
        lemma_mask_values();
        assert(register_wf(r));
    }
    r
}

/// The `GyroDataX` register of bank 0, at in-bank offset 0x25.
/// Fields, in declaration order: `value`.
pub fn gyro_data_x() -> (r: RegisterDescriptor)
    ensures
        register_wf(r),
        r.address == 0x0025,
        r.size_bits == 16,
        r.access is ReadOnly,
        r.byte_order is BigEndian,
        r.reset_value == 0x8000,
        r.fields@.len() == 1,
        r.fields@[0] == (FieldDescriptor { offset: 0, width: 16, kind: FieldKind::Signed }),
{
    let mut fields: Vec<FieldDescriptor> = Vec::new();
    fields.push(FieldDescriptor { offset: 0, width: 16, kind: FieldKind::Signed });
    let r = RegisterDescriptor {
        address: 0x0025,
        size_bits: 16,
        access: Access::ReadOnly,
        byte_order: ByteOrder::BigEndian,
        reset_value: 0x8000,
        fields,
    };
    proof {
        lemma_mask_values();
        assert(register_wf(r));
    }
    r
}

/// The `GyroDataY` register of bank 0, at in-bank offset 0x27.
/// Fields, in declaration order: `value`.
pub fn gyro_data_y() -> (r: RegisterDescriptor)
    ensures
        register_wf(r),
        r.address == 0x0027,
        r.size_bits == 16,
        r.access is ReadOnly,
        r.byte_order is BigEndian,
        r.reset_value == 0x8000,
        r.fields@.len() == 1,
        r.fields@[0] == (FieldDescriptor { offset: 0, width: 16, kind: FieldKind::Signed }),
{
    let mut fields: Vec<FieldDescriptor> = Vec::new();
    fields.push(FieldDescriptor { offset: 0, width: 16, kind: FieldKind::Signed });
    let r = RegisterDescriptor {
        address: 0x0027,
        size_bits: 16,
        access: Access::ReadOnly,
        byte_order: ByteOrder::BigEndian,
        reset_value: 0x8000,
        fields,
    };
    proof {
        lemma_mask_values();
        assert(register_wf(r));
    }
    r
}

/// The `GyroDataZ` register of bank 0, at in-bank offset 0x29.
/// Fields, in declaration order: `value`.
pub fn gyro_data_z() -> (r: RegisterDescriptor)
    ensures
        register_wf(r),
        r.address == 0x0029,
        r.size_bits == 16,
        r.access is ReadOnly,
        r.byte_order is BigEndian,
        r.reset_value == 0x8000,
        r.fields@.len() == 1,
        r.fields@[0] == (FieldDescriptor { offset: 0, width: 16, kind: FieldKind::Signed }),
{
    let mut fields: Vec<FieldDescriptor> = Vec::new();
    fields.push(FieldDescriptor { offset: 0, width: 16, kind: FieldKind::Signed });
    let r = RegisterDescriptor {
        address: 0x0029,
        size_bits: 16,
        access: Access::ReadOnly,
        byte_order: ByteOrder::BigEndian,
        reset_value: 0x8000,
        fields,
    };
    proof {
        lemma_mask_values();
        assert(register_wf(r));
    }
    r
}

/// The `TimestampFsync` register of bank 0, at in-bank offset 0x2b.
/// Fields, in declaration order: `value`.
pub fn timestamp_fsync() -> (r: RegisterDescriptor)
    ensures
        register_wf(r),
        r.address == 0x002b,
        r.size_bits == 16,
        r.access is ReadOnly,
        r.byte_order is BigEndian,
        r.reset_value == 0x00,
        r.fields@.len() == 1,
        r.fields@[0] == (FieldDescriptor { offset: 0, width: 16, kind: FieldKind::Signed }),
{
    let mut fields: Vec<FieldDescriptor> = Vec::new();
    fields.push(FieldDescriptor { offset: 0, width: 16, kind: FieldKind::Signed });
    let r = RegisterDescriptor {
        address: 0x002b,
        size_bits: 16,
        access: Access::ReadOnly,
        byte_order: ByteOrder::BigEndian,
        reset_value: 0x00,
        fields,
    };
    proof {
        lemma_mask_values();
        assert(register_wf(r));
    }
    r
}

/// The `IntStatus` register of bank 0, at in-bank offset 0x2d.
/// Fields, in declaration order: `ui_fsync_int`, `pll_rdy_int`, `reset_done_int`, `data_rdy_int`, `fifo_ths_int`, `fifo_full_int`, `agc_rdy_int`.
pub fn int_status() -> (r: RegisterDescriptor)
    ensures
        register_wf(r),
        r.address == 0x002d,
        r.size_bits == 8,
        r.access is ReadOnly,
        r.byte_order is BigEndian,
        r.reset_value == 0x00,
        r.fields@.len() == 7,
        r.fields@[0] == (FieldDescriptor { offset: 6, width: 1, kind: FieldKind::Boolean }),
        r.fields@[1] == (FieldDescriptor { offset: 5, width: 1, kind: FieldKind::Boolean }),
        r.fields@[2] == (FieldDescriptor { offset: 4, width: 1, kind: FieldKind::Boolean }),
        r.fields@[3] == (FieldDescriptor { offset: 3, width: 1, kind: FieldKind::Boolean }),
        r.fields@[4] == (FieldDescriptor { offset: 2, width: 1, kind: FieldKind::Boolean }),
        r.fields@[5] == (FieldDescriptor { offset: 1, width: 1, kind: FieldKind::Boolean }),
        r.fields@[6] == (FieldDescriptor { offset: 0, width: 1, kind: FieldKind::Boolean }),
{
    let mut fields: Vec<FieldDescriptor> = Vec::new();
    fields.push(FieldDescriptor { offset: 6, width: 1, kind: FieldKind::Boolean });
    fields.push(FieldDescriptor { offset: 5, width: 1, kind: FieldKind::Boolean });
    fields.push(FieldDescriptor { offset: 4, width: 1, kind: FieldKind::Boolean });
    fields.push(FieldDescriptor { offset: 3, width: 1, kind: FieldKind::Boolean });
    fields.push(FieldDescriptor { offset: 2, width: 1, kind: FieldKind::Boolean });
    fields.push(FieldDescriptor { offset: 1, width: 1, kind: FieldKind::Boolean });
    fields.push(FieldDescriptor { offset: 0, width: 1, kind: FieldKind::Boolean });
    let r = RegisterDescriptor {
        address: 0x002d,
        size_bits: 8,
        access: Access::ReadOnly,
        byte_order: ByteOrder::BigEndian,
        reset_value: 0x00,
        fields,
    };
    proof {
        lemma_mask_values();
        assert(register_wf(r));
    }
    r
}

/// The `FifoCount` register of bank 0, at in-bank offset 0x2e.
/// Fields, in declaration order: `value`.
pub fn fifo_count() -> (r: RegisterDescriptor)
    ensures
        register_wf(r),
        r.address == 0x002e,
        r.size_bits == 16,
        r.access is ReadOnly,
        r.byte_order is BigEndian,
        r.reset_value == 0x00,
        r.fields@.len() == 1,
        r.fields@[0] == (FieldDescriptor { offset: 0, width: 16, kind: FieldKind::Signed }),
{
    let mut fields: Vec<FieldDescriptor> = Vec::new();
    fields.push(FieldDescriptor { offset: 0, width: 16, kind: FieldKind::Signed });
    let r = RegisterDescriptor {
        address: 0x002e,
        size_bits: 16,
        access: Access::ReadOnly,
        byte_order: ByteOrder::BigEndian,
        reset_value: 0x00,
        fields,
    };
    proof {
        lemma_mask_values();
        assert(register_wf(r));
    }
    r
}

/// The `FifoData` register of bank 0, at in-bank offset 0x30.
/// Fields, in declaration order: `value`.
pub fn fifo_data() -> (r: RegisterDescriptor)
    ensures
        register_wf(r),
        r.address == 0x0030,
        r.size_bits == 8,
        r.access is ReadOnly,
        r.byte_order is BigEndian,
        r.reset_value == 0xff,
        r.fields@.len() == 1,
        r.fields@[0] == (FieldDescriptor { offset: 0, width: 8, kind: FieldKind::Signed }),
{
    let mut fields: Vec<FieldDescriptor> = Vec::new();
    fields.push(FieldDescriptor { offset: 0, width: 8, kind: FieldKind::Signed });
    let r = RegisterDescriptor {
        address: 0x0030,
        size_bits: 8,
        access: Access::ReadOnly,
        byte_order: ByteOrder::BigEndian,
        reset_value: 0xff,
        fields,
    };
    proof {
        lemma_mask_values();
        assert(register_wf(r));
    }
    r
}

/// The `StepCount` register of bank 0, at in-bank offset 0x31.
/// Fields, in declaration order: `value`.
pub fn step_count() -> (r: RegisterDescriptor)
    ensures
        register_wf(r),
        r.address == 0x0031,
        r.size_bits == 16,
        r.access is ReadOnly,
        r.byte_order is LittleEndian,
        r.reset_value == 0x00,
        r.fields@.len() == 1,
        r.fields@[0] == (FieldDescriptor { offset: 0, width: 16, kind: FieldKind::Unsigned }),
{
    let mut fields: Vec<FieldDescriptor> = Vec::new();
    fields.push(FieldDescriptor { offset: 0, width: 16, kind: FieldKind::Unsigned });
    let r = RegisterDescriptor {
        address: 0x0031,
        size_bits: 16,
        access: Access::ReadOnly,
        byte_order: ByteOrder::LittleEndian,
        reset_value: 0x00,
        fields,
    };
    proof {
        lemma_mask_values();
        assert(register_wf(r));
    }
    r
}

/// The `StepCadence` register of bank 0, at in-bank offset 0x33.
/// Fields, in declaration order: `value`.
pub fn step_cadence() -> (r: RegisterDescriptor)
    ensures
        register_wf(r),
        r.address == 0x0033,
        r.size_bits == 8,
        r.access is ReadOnly,
        r.byte_order is BigEndian,
        r.reset_value == 0x00,
        r.fields@.len() == 1,
        r.fields@[0] == (FieldDescriptor { offset: 0, width: 8, kind: FieldKind::Unsigned }),
{
    let mut fields: Vec<FieldDescriptor> = Vec::new();
    fields.push(FieldDescriptor { offset: 0, width: 8, kind: FieldKind::Unsigned });
    let r = RegisterDescriptor {
        address: 0x0033,
        size_bits: 8,
        access: Access::ReadOnly,
        byte_order: ByteOrder::BigEndian,
        reset_value: 0x00,
        fields,
    };
    proof {
        lemma_mask_values();
        assert(register_wf(r));
    }
    r
}

/// The `ApexStatus` register of bank 0, at in-bank offset 0x34.
/// Fields, in declaration order: `dmp_idle`, `activity_class`.
pub fn apex_status() -> (r: RegisterDescriptor)
    ensures
        register_wf(r),
        r.address == 0x0034,
        r.size_bits == 8,
        r.access is ReadOnly,
        r.byte_order is BigEndian,
        r.reset_value == 0x04,
        r.fields@.len() == 2,
        r.fields@[0] == (FieldDescriptor { offset: 2, width: 1, kind: FieldKind::Boolean }),
        r.fields@[1].offset == 0,
        r.fields@[1].width == 2,
        r.fields@[1].kind matches FieldKind::Enumeration(e) && e.variants@ =~= seq![
            VariantPattern::Exact(0),
            VariantPattern::Exact(1),
            VariantPattern::Exact(2),
            VariantPattern::Exact(3),
        ],
{
    let mut fields: Vec<FieldDescriptor> = Vec::new();
    fields.push(FieldDescriptor { offset: 2, width: 1, kind: FieldKind::Boolean });
    fields.push(FieldDescriptor { offset: 0, width: 2, kind: FieldKind::Enumeration(enum_activity_class()) });
    let r = RegisterDescriptor {
        address: 0x0034,
        size_bits: 8,
        access: Access::ReadOnly,
        byte_order: ByteOrder::BigEndian,
        reset_value: 0x04,
        fields,
    };
    proof {
        lemma_mask_values();
        assert(register_wf(r));
    }
    r
}

/// The `TapStatus` register of bank 0, at in-bank offset 0x35.
/// Fields, in declaration order: `tap_num`, `tap_axis`, `tap_dir`.
pub fn tap_status() -> (r: RegisterDescriptor)
    ensures
        register_wf(r),
        r.address == 0x0035,
        r.size_bits == 8,
        r.access is ReadOnly,
        r.byte_order is BigEndian,
        r.reset_value == 0x00,
        r.fields@.len() == 3,
        r.fields@[0].offset == 3,
        r.fields@[0].width == 2,
        r.fields@[0].kind matches FieldKind::Enumeration(e) && e.variants@ =~= seq![
            VariantPattern::Exact(0),
            VariantPattern::Exact(1),
            VariantPattern::Exact(2),
            VariantPattern::Exact(3),
        ],
        r.fields@[1].offset == 1,
        r.fields@[1].width == 2,
        r.fields@[1].kind matches FieldKind::Enumeration(e) && e.variants@ =~= seq![
            VariantPattern::Exact(0),
            VariantPattern::Exact(1),
            VariantPattern::Exact(2),
            VariantPattern::Exact(3),
        ],
        r.fields@[2].offset == 0,
        r.fields@[2].width == 1,
        r.fields@[2].kind matches FieldKind::Enumeration(e) && e.variants@ =~= seq![
            VariantPattern::Exact(0),
            VariantPattern::Exact(1),
        ],
{
    let mut fields: Vec<FieldDescriptor> = Vec::new();
    fields.push(FieldDescriptor { offset: 3, width: 2, kind: FieldKind::Enumeration(enum_tap_num()) });
    fields.push(FieldDescriptor { offset: 1, width: 2, kind: FieldKind::Enumeration(enum_axis()) });
    fields.push(FieldDescriptor { offset: 0, width: 1, kind: FieldKind::Enumeration(enum_polarity()) });
    let r = RegisterDescriptor {
        address: 0x0035,
        size_bits: 8,
        access: Access::ReadOnly,
        byte_order: ByteOrder::BigEndian,
        reset_value: 0x00,
        fields,
    };
    proof {
        lemma_mask_values();
        assert(register_wf(r));
    }
    r
}

/// The `DoubleTapTiming` register of bank 0, at in-bank offset 0x36.
/// Fields, in declaration order: `value`.
pub fn double_tap_timing() -> (r: RegisterDescriptor)
    ensures
        register_wf(r),
        r.address == 0x0036,
        r.size_bits == 8,
        r.access is ReadOnly,
        r.byte_order is BigEndian,
        r.reset_value == 0x00,
        r.fields@.len() == 1,
        r.fields@[0] == (FieldDescriptor { offset: 0, width: 6, kind: FieldKind::Unsigned }),
{
    let mut fields: Vec<FieldDescriptor> = Vec::new();
    fields.push(FieldDescriptor { offset: 0, width: 6, kind: FieldKind::Unsigned });
    let r = RegisterDescriptor {
        address: 0x0036,
        size_bits: 8,
        access: Access::ReadOnly,
        byte_order: ByteOrder::BigEndian,
        reset_value: 0x00,
        fields,
    };
    proof {
        lemma_mask_values();
        assert(register_wf(r));
    }
    r
}

/// The `IntStatus2` register of bank 0, at in-bank offset 0x37.
/// Fields, in declaration order: `smd_int`, `wom_z_int`, `wom_y_int`, `wom_x_int`.
pub fn int_status2() -> (r: RegisterDescriptor)
    ensures
        register_wf(r),
        r.address == 0x0037,
        r.size_bits == 8,
        r.access is ReadOnly,
        r.byte_order is BigEndian,
        r.reset_value == 0x00,
        r.fields@.len() == 4,
        r.fields@[0] == (FieldDescriptor { offset: 3, width: 1, kind: FieldKind::Boolean }),
        r.fields@[1] == (FieldDescriptor { offset: 2, width: 1, kind: FieldKind::Boolean }),
        r.fields@[2] == (FieldDescriptor { offset: 1, width: 1, kind: FieldKind::Boolean }),
        r.fields@[3] == (FieldDescriptor { offset: 0, width: 1, kind: FieldKind::Boolean }),
{
    let mut fields: Vec<FieldDescriptor> = Vec::new();
    fields.push(FieldDescriptor { offset: 3, width: 1, kind: FieldKind::Boolean });
    fields.push(FieldDescriptor { offset: 2, width: 1, kind: FieldKind::Boolean });
    fields.push(FieldDescriptor { offset: 1, width: 1, kind: FieldKind::Boolean });
    fields.push(FieldDescriptor { offset: 0, width: 1, kind: FieldKind::Boolean });
    let r = RegisterDescriptor {
        address: 0x0037,
        size_bits: 8,
        access: Access::ReadOnly,
        byte_order: ByteOrder::BigEndian,
        reset_value: 0x00,
        fields,
    };
    proof {
        lemma_mask_values();
        assert(register_wf(r));
    }
    r
}

/// The `IntStatus3` register of bank 0, at in-bank offset 0x38.
/// Fields, in declaration order: `step_det_int`, `step_cnt_ovf_int`, `tilt_det_int`, `wake_int`, `sleep_int`, `tap_det_int`.
pub fn int_status3() -> (r: RegisterDescriptor)
    ensures
        register_wf(r),
        r.address == 0x0038,
        r.size_bits == 8,
        r.access is ReadOnly,
        r.byte_order is BigEndian,
        r.reset_value == 0x00,
        r.fields@.len() == 6,
        r.fields@[0] == (FieldDescriptor { offset: 5, width: 1, kind: FieldKind::Boolean }),
        r.fields@[1] == (FieldDescriptor { offset: 4, width: 1, kind: FieldKind::Boolean }),
        r.fields@[2] == (FieldDescriptor { offset: 3, width: 1, kind: FieldKind::Boolean }),
        r.fields@[3] == (FieldDescriptor { offset: 2, width: 1, kind: FieldKind::Boolean }),
        r.fields@[4] == (FieldDescriptor { offset: 1, width: 1, kind: FieldKind::Boolean }),
        r.fields@[5] == (FieldDescriptor { offset: 0, width: 1, kind: FieldKind::Boolean }),
{
    let mut fields: Vec<FieldDescriptor> = Vec::new();
    fields.push(FieldDescriptor { offset: 5, width: 1, kind: FieldKind::Boolean });
    fields.push(FieldDescriptor { offset: 4, width: 1, kind: FieldKind::Boolean });
    fields.push(FieldDescriptor { offset: 3, width: 1, kind: FieldKind::Boolean });
    fields.push(FieldDescriptor { offset: 2, width: 1, kind: FieldKind::Boolean });
    fields.push(FieldDescriptor { offset: 1, width: 1, kind: FieldKind::Boolean });
    fields.push(FieldDescriptor { offset: 0, width: 1, kind: FieldKind::Boolean });
    let r = RegisterDescriptor {
        address: 0x0038,
        size_bits: 8,
        access: Access::ReadOnly,
        byte_order: ByteOrder::BigEndian,
        reset_value: 0x00,
        fields,
    };
    proof {
        lemma_mask_values();
        assert(register_wf(r));
    }
    r
}

/// The `SignalPathReset` register of bank 0, at in-bank offset 0x4b.
/// Fields, in declaration order: `dmp_init_en`, `dmp_mem_reset_en`, `abort_and_reset`, `tmst_strobe`, `fifo_flush`.
pub fn signal_path_reset() -> (r: RegisterDescriptor)
    ensures
        register_wf(r),
        r.address == 0x004b,
        r.size_bits == 8,
        r.access is WriteOnly,
        r.byte_order is BigEndian,
        r.reset_value == 0x00,
        r.fields@.len() == 5,
        r.fields@[0] == (FieldDescriptor { offset: 6, width: 1, kind: FieldKind::Boolean }),
        r.fields@[1] == (FieldDescriptor { offset: 5, width: 1, kind: FieldKind::Boolean }),
        r.fields@[2] == (FieldDescriptor { offset: 3, width: 1, kind: FieldKind::Boolean }),
        r.fields@[3] == (FieldDescriptor { offset: 2, width: 1, kind: FieldKind::Boolean }),
        r.fields@[4] == (FieldDescriptor { offset: 1, width: 1, kind: FieldKind::Boolean }),
{
    let mut fields: Vec<FieldDescriptor> = Vec::new();
    fields.push(FieldDescriptor { offset: 6, width: 1, kind: FieldKind::Boolean });
    fields.push(FieldDescriptor { offset: 5, width: 1, kind: FieldKind::Boolean });
    fields.push(FieldDescriptor { offset: 3, width: 1, kind: FieldKind::Boolean });
    fields.push(FieldDescriptor { offset: 2, width: 1, kind: FieldKind::Boolean });
    fields.push(FieldDescriptor { offset: 1, width: 1, kind: FieldKind::Boolean });
    let r = RegisterDescriptor {
        address: 0x004b,
        size_bits: 8,
        access: Access::WriteOnly,
        byte_order: ByteOrder::BigEndian,
        reset_value: 0x00,
        fields,
    };
    proof {
        lemma_mask_values();
        assert(register_wf(r));
    }
    r
}

/// The `IntfConfig0` register of bank 0, at in-bank offset 0x4c.
/// Fields, in declaration order: `fifo_hold_last_data_en`, `fifo_count_rec`, `fifo_count_endian`, `sensor_data_endian`, `ui_sifs_cfg`.
pub fn intf_config0() -> (r: RegisterDescriptor)
    ensures
        register_wf(r),
        r.address == 0x004c,
        r.size_bits == 8,
        r.access is ReadWrite,
        r.byte_order is BigEndian,
        r.reset_value == 0x30,
        r.fields@.len() == 5,
        r.fields@[0] == (FieldDescriptor { offset: 7, width: 1, kind: FieldKind::Boolean }),
        r.fields@[1].offset == 6,
        r.fields@[1].width == 1,
        r.fields@[1].kind matches FieldKind::Enumeration(e) && e.variants@ =~= seq![
            VariantPattern::Exact(0),
            VariantPattern::Exact(1),
        ],
        r.fields@[2].offset == 5,
        r.fields@[2].width == 1,
        r.fields@[2].kind matches FieldKind::Enumeration(e) && e.variants@ =~= seq![
            VariantPattern::Exact(0),
            VariantPattern::Exact(1),
        ],
        r.fields@[3].offset == 4,
        r.fields@[3].width == 1,
        r.fields@[3].kind matches FieldKind::Enumeration(e) && e.variants@ =~= seq![
            VariantPattern::Exact(0),
            VariantPattern::Exact(1),
        ],
        r.fields@[4].offset == 0,
        r.fields@[4].width == 2,
        r.fields@[4].kind matches FieldKind::Enumeration(e) && e.variants@ =~= seq![
            VariantPattern::CatchAll,
            VariantPattern::Exact(2),
            VariantPattern::Exact(3),
        ],
{
    let mut fields: Vec<FieldDescriptor> = Vec::new();
    fields.push(FieldDescriptor { offset: 7, width: 1, kind: FieldKind::Boolean });
    fields.push(FieldDescriptor { offset: 6, width: 1, kind: FieldKind::Enumeration(enum_fifo_count_rec()) });
    fields.push(FieldDescriptor { offset: 5, width: 1, kind: FieldKind::Enumeration(enum_endian()) });
    fields.push(FieldDescriptor { offset: 4, width: 1, kind: FieldKind::Enumeration(enum_endian()) });
    fields.push(FieldDescriptor { offset: 0, width: 2, kind: FieldKind::Enumeration(enum_ui_sifs_cfg()) });
    let r = RegisterDescriptor {
        address: 0x004c,
        size_bits: 8,
        access: Access::ReadWrite,
        byte_order: ByteOrder::BigEndian,
        reset_value: 0x30,
        fields,
    };
    proof {
        lemma_mask_values();
        assert(register_wf(r));
    }
    r
}

/// The `IntfConfig1` register of bank 0, at in-bank offset 0x4d.
/// Fields, in declaration order: `accel_lp_clk_sel`, `clksel`.
pub fn intf_config1() -> (r: RegisterDescriptor)
    ensures
        register_wf(r),
        r.address == 0x004d,
        r.size_bits == 8,
        r.access is ReadWrite,
        r.byte_order is BigEndian,
        r.reset_value == 0x91,
        r.fields@.len() == 2,
        r.fields@[0].offset == 3,
        r.fields@[0].width == 1,
        r.fields@[0].kind matches FieldKind::Enumeration(e) && e.variants@ =~= seq![
            VariantPattern::Exact(0),
            VariantPattern::Exact(1),
        ],
        r.fields@[1].offset == 0,
        r.fields@[1].width == 2,
        r.fields@[1].kind matches FieldKind::Enumeration(e) && e.variants@ =~= seq![
            VariantPattern::Exact(0),
            VariantPattern::Exact(1),
            VariantPattern::Exact(2),
            VariantPattern::Exact(3),
        ],
{
    let mut fields: Vec<FieldDescriptor> = Vec::new();
    fields.push(FieldDescriptor { offset: 3, width: 1, kind: FieldKind::Enumeration(enum_accel_lp_clk_sel()) });
    fields.push(FieldDescriptor { offset: 0, width: 2, kind: FieldKind::Enumeration(enum_clk_sel()) });
    let r = RegisterDescriptor {
        address: 0x004d,
        size_bits: 8,
        access: Access::ReadWrite,
        byte_order: ByteOrder::BigEndian,
        reset_value: 0x91,
        fields,
    };
    proof {
        lemma_mask_values();
        assert(register_wf(r));
    }
    r
}

/// The `PwrMgmt` register of bank 0, at in-bank offset 0x4e.
/// Fields, in declaration order: `temp_dis`, `idle`, `gyro_mode`, `accel_mode`.
pub fn pwr_mgmt() -> (r: RegisterDescriptor)
    ensures
        register_wf(r),
        r.address == 0x004e,
        r.size_bits == 8,
        r.access is ReadWrite,
        r.byte_order is BigEndian,
        r.reset_value == 0x00,
        r.fields@.len() == 4,
        r.fields@[0] == (FieldDescriptor { offset: 5, width: 1, kind: FieldKind::Boolean }),
        r.fields@[1] == (FieldDescriptor { offset: 4, width: 1, kind: FieldKind::Boolean }),
        r.fields@[2].offset == 2,
        r.fields@[2].width == 2,
        r.fields@[2].kind matches FieldKind::Enumeration(e) && e.variants@ =~= seq![
            VariantPattern::Exact(0),
            VariantPattern::Exact(1),
            VariantPattern::Exact(2),
            VariantPattern::Exact(3),
        ],
        r.fields@[3].offset == 0,
        r.fields@[3].width == 2,
        r.fields@[3].kind matches FieldKind::Enumeration(e) && e.variants@ =~= seq![
            VariantPattern::Exact(0),
            VariantPattern::Exact(1),
            VariantPattern::Exact(2),
            VariantPattern::Exact(3),
        ],
{
    let mut fields: Vec<FieldDescriptor> = Vec::new();
    fields.push(FieldDescriptor { offset: 5, width: 1, kind: FieldKind::Boolean });
    fields.push(FieldDescriptor { offset: 4, width: 1, kind: FieldKind::Boolean });
    fields.push(FieldDescriptor { offset: 2, width: 2, kind: FieldKind::Enumeration(enum_gyro_mode()) });
    fields.push(FieldDescriptor { offset: 0, width: 2, kind: FieldKind::Enumeration(enum_accel_mode()) });
    let r = RegisterDescriptor {
        address: 0x004e,
        size_bits: 8,
        access: Access::ReadWrite,
        byte_order: ByteOrder::BigEndian,
        reset_value: 0x00,
        fields,
    };
    proof {
        lemma_mask_values();
        assert(register_wf(r));
    }
    r
}

/// The `GyroConfig0` register of bank 0, at in-bank offset 0x4f.
/// Fields, in declaration order: `gyro_fs_sel`, `gyro_odr`.
pub fn gyro_config0() -> (r: RegisterDescriptor)
    ensures
        register_wf(r),
        r.address == 0x004f,
        r.size_bits == 8,
        r.access is ReadWrite,
        r.byte_order is BigEndian,
        r.reset_value == 0x06,
        r.fields@.len() == 2,
        r.fields@[0].offset == 5,
        r.fields@[0].width == 3,
        r.fields@[0].kind matches FieldKind::Enumeration(e) && e.variants@ =~= seq![
            VariantPattern::Exact(0),
            VariantPattern::Exact(1),
            VariantPattern::Exact(2),
            VariantPattern::Exact(3),
            VariantPattern::Exact(4),
            VariantPattern::Exact(5),
            VariantPattern::Exact(6),
            VariantPattern::Exact(7),
        ],
        r.fields@[1].offset == 0,
        r.fields@[1].width == 4,
        r.fields@[1].kind matches FieldKind::Enumeration(e) && e.variants@ =~= seq![
            VariantPattern::CatchAll,
            VariantPattern::Exact(3),
            VariantPattern::Exact(4),
            VariantPattern::Exact(5),
            VariantPattern::Exact(6),
            VariantPattern::Exact(7),
            VariantPattern::Exact(8),
            VariantPattern::Exact(9),
            VariantPattern::Exact(10),
            VariantPattern::Exact(11),
            VariantPattern::Exact(12),
            VariantPattern::Exact(13),
            VariantPattern::Exact(14),
            VariantPattern::Exact(15),
        ],
{
    let mut fields: Vec<FieldDescriptor> = Vec::new();
    fields.push(FieldDescriptor { offset: 5, width: 3, kind: FieldKind::Enumeration(enum_gyro_full_scale()) });
    fields.push(FieldDescriptor { offset: 0, width: 4, kind: FieldKind::Enumeration(enum_data_rate()) });
    let r = RegisterDescriptor {
        address: 0x004f,
        size_bits: 8,
        access: Access::ReadWrite,
        byte_order: ByteOrder::BigEndian,
        reset_value: 0x06,
        fields,
    };
    proof {
        lemma_mask_values();
        assert(register_wf(r));
    }
    r
}

/// The `AccelConfig0` register of bank 0, at in-bank offset 0x50.
/// Fields, in declaration order: `gyro_fs_sel`, `gyro_odr`.
pub fn accel_config0() -> (r: RegisterDescriptor)
    ensures
        register_wf(r),
        r.address == 0x0050,
        r.size_bits == 8,
        r.access is ReadWrite,
        r.byte_order is BigEndian,
        r.reset_value == 0x06,
        r.fields@.len() == 2,
        r.fields@[0].offset == 5,
        r.fields@[0].width == 3,
        r.fields@[0].kind matches FieldKind::Enumeration(e) && e.variants@ =~= seq![
            VariantPattern::Exact(0),
            VariantPattern::Exact(1),
            VariantPattern::Exact(2),
            VariantPattern::Exact(3),
            VariantPattern::CatchAll,
        ],
        r.fields@[1].offset == 0,
        r.fields@[1].width == 4,
        r.fields@[1].kind matches FieldKind::Enumeration(e) && e.variants@ =~= seq![
            VariantPattern::CatchAll,
            VariantPattern::Exact(3),
            VariantPattern::Exact(4),
            VariantPattern::Exact(5),
            VariantPattern::Exact(6),
            VariantPattern::Exact(7),
            VariantPattern::Exact(8),
            VariantPattern::Exact(9),
            VariantPattern::Exact(10),
            VariantPattern::Exact(11),
            VariantPattern::Exact(12),
            VariantPattern::Exact(13),
            VariantPattern::Exact(14),
            VariantPattern::Exact(15),
        ],
{
    let mut fields: Vec<FieldDescriptor> = Vec::new();
    fields.push(FieldDescriptor { offset: 5, width: 3, kind: FieldKind::Enumeration(enum_accel_full_scale()) });
    fields.push(FieldDescriptor { offset: 0, width: 4, kind: FieldKind::Enumeration(enum_data_rate()) });
    let r = RegisterDescriptor {
        address: 0x0050,
        size_bits: 8,
        access: Access::ReadWrite,
        byte_order: ByteOrder::BigEndian,
        reset_value: 0x06,
        fields,
    };
    proof {
        lemma_mask_values();
        assert(register_wf(r));
    }
    r
}

/// The `GyroConfig1` register of bank 0, at in-bank offset 0x51.
/// Fields, in declaration order: `temp_filt_bw`, `gyro_ui_filt_ord`, `gyro_dec2_m2_ord`.
pub fn gyro_config1() -> (r: RegisterDescriptor)
    ensures
        register_wf(r),
        r.address == 0x0051,
        r.size_bits == 8,
        r.access is ReadWrite,
        r.byte_order is BigEndian,
        r.reset_value == 0x16,
        r.fields@.len() == 3,
        r.fields@[0].offset == 5,
        r.fields@[0].width == 3,
        r.fields@[0].kind matches FieldKind::Enumeration(e) && e.variants@ =~= seq![
            VariantPattern::Exact(0),
            VariantPattern::Exact(1),
            VariantPattern::Exact(2),
            VariantPattern::Exact(3),
            VariantPattern::Exact(4),
            VariantPattern::Exact(5),
            VariantPattern::Exact(6),
            VariantPattern::Exact(7),
        ],
        r.fields@[1].offset == 2,
        r.fields@[1].width == 2,
        r.fields@[1].kind matches FieldKind::Enumeration(e) && e.variants@ =~= seq![
            VariantPattern::Exact(0),
            VariantPattern::Exact(1),
            VariantPattern::Exact(2),
            VariantPattern::Exact(3),
        ],
        r.fields@[2].offset == 0,
        r.fields@[2].width == 2,
        r.fields@[2].kind matches FieldKind::Enumeration(e) && e.variants@ =~= seq![
            VariantPattern::CatchAll,
            VariantPattern::Exact(2),
        ],
{
    let mut fields: Vec<FieldDescriptor> = Vec::new();
    fields.push(FieldDescriptor { offset: 5, width: 3, kind: FieldKind::Enumeration(enum_low_pass_filter_latency()) });
    fields.push(FieldDescriptor { offset: 2, width: 2, kind: FieldKind::Enumeration(enum_ui_filter_order()) });
    fields.push(FieldDescriptor { offset: 0, width: 2, kind: FieldKind::Enumeration(enum_dec2_m2_filter_order()) });
    let r = RegisterDescriptor {
        address: 0x0051,
        size_bits: 8,
        access: Access::ReadWrite,
        byte_order: ByteOrder::BigEndian,
        reset_value: 0x16,
        fields,
    };
    proof {
        lemma_mask_values();
        assert(register_wf(r));
    }
    r
}

/// The `GyroAccelConfig` register of bank 0, at in-bank offset 0x52.
/// Fields, in declaration order: `accel_ui_filt_bw`, `gyro_ui_filt_bw`.
pub fn gyro_accel_config() -> (r: RegisterDescriptor)
    ensures
        register_wf(r),
        r.address == 0x0052,
        r.size_bits == 8,
        r.access is ReadWrite,
        r.byte_order is BigEndian,
        r.reset_value == 0x11,
        r.fields@.len() == 2,
        r.fields@[0] == (FieldDescriptor { offset: 4, width: 4, kind: FieldKind::Unsigned }),
        r.fields@[1] == (FieldDescriptor { offset: 0, width: 4, kind: FieldKind::Unsigned }),
{
    let mut fields: Vec<FieldDescriptor> = Vec::new();
    fields.push(FieldDescriptor { offset: 4, width: 4, kind: FieldKind::Unsigned });
    fields.push(FieldDescriptor { offset: 0, width: 4, kind: FieldKind::Unsigned });
    let r = RegisterDescriptor {
        address: 0x0052,
        size_bits: 8,
        access: Access::ReadWrite,
        byte_order: ByteOrder::BigEndian,
        reset_value: 0x11,
        fields,
    };
    proof {
        lemma_mask_values();
        assert(register_wf(r));
    }
    r
}

/// The `AccelConfig1` register of bank 0, at in-bank offset 0x53.
/// Fields, in declaration order: `accel_ui_filt_ord`, `accel_dec2_m2_ord`.
pub fn accel_config1() -> (r: RegisterDescriptor)
    ensures
        register_wf(r),
        r.address == 0x0053,
        r.size_bits == 8,
        r.access is ReadWrite,
        r.byte_order is BigEndian,
        r.reset_value == 0x0d,
        r.fields@.len() == 2,
        r.fields@[0].offset == 3,
        r.fields@[0].width == 2,
        r.fields@[0].kind matches FieldKind::Enumeration(e) && e.variants@ =~= seq![
            VariantPattern::Exact(0),
            VariantPattern::Exact(1),
            VariantPattern::Exact(2),
            VariantPattern::Exact(3),
        ],
        r.fields@[1].offset == 1,
        r.fields@[1].width == 2,
        r.fields@[1].kind matches FieldKind::Enumeration(e) && e.variants@ =~= seq![
            VariantPattern::CatchAll,
            VariantPattern::Exact(2),
        ],
{
    let mut fields: Vec<FieldDescriptor> = Vec::new();
    fields.push(FieldDescriptor { offset: 3, width: 2, kind: FieldKind::Enumeration(enum_ui_filter_order()) });
    fields.push(FieldDescriptor { offset: 1, width: 2, kind: FieldKind::Enumeration(enum_dec2_m2_filter_order()) });
    let r = RegisterDescriptor {
        address: 0x0053,
        size_bits: 8,
        access: Access::ReadWrite,
        byte_order: ByteOrder::BigEndian,
        reset_value: 0x0d,
        fields,
    };
    proof {
        lemma_mask_values();
        assert(register_wf(r));
    }
    r
}

/// The `TmstConfig` register of bank 0, at in-bank offset 0x54.
/// Fields, in declaration order: `tmst_to_regs_en`, `tmst_res`, `tmst_delta_en`, `tmst_fsync_en`, `tmst_en`.
pub fn tmst_config() -> (r: RegisterDescriptor)
    ensures
        register_wf(r),
        r.address == 0x0054,
        r.size_bits == 8,
        r.access is ReadWrite,
        r.byte_order is BigEndian,
        r.reset_value == 0x23,
        r.fields@.len() == 5,
        r.fields@[0] == (FieldDescriptor { offset: 4, width: 1, kind: FieldKind::Boolean }),
        r.fields@[1] == (FieldDescriptor { offset: 3, width: 1, kind: FieldKind::Boolean }),
        r.fields@[2] == (FieldDescriptor { offset: 2, width: 1, kind: FieldKind::Boolean }),
        r.fields@[3] == (FieldDescriptor { offset: 1, width: 1, kind: FieldKind::Boolean }),
        r.fields@[4] == (FieldDescriptor { offset: 0, width: 1, kind: FieldKind::Boolean }),
{
    let mut fields: Vec<FieldDescriptor> = Vec::new();
    fields.push(FieldDescriptor { offset: 4, width: 1, kind: FieldKind::Boolean });
    fields.push(FieldDescriptor { offset: 3, width: 1, kind: FieldKind::Boolean });
    fields.push(FieldDescriptor { offset: 2, width: 1, kind: FieldKind::Boolean });
    fields.push(FieldDescriptor { offset: 1, width: 1, kind: FieldKind::Boolean });
    fields.push(FieldDescriptor { offset: 0, width: 1, kind: FieldKind::Boolean });
    let r = RegisterDescriptor {
        address: 0x0054,
        size_bits: 8,
        access: Access::ReadWrite,
        byte_order: ByteOrder::BigEndian,
        reset_value: 0x23,
        fields,
    };
    proof {
        lemma_mask_values();
        assert(register_wf(r));
    }
    r
}

/// The `ApexConfig` register of bank 0, at in-bank offset 0x56.
/// Fields, in declaration order: `dmp_power_save`, `tap_enable`, `ped_enable`, `tilt_enable`, `r2w_en`, `dmp_odr`.
pub fn apex_config() -> (r: RegisterDescriptor)
    ensures
        register_wf(r),
        r.address == 0x0056,
        r.size_bits == 8,
        r.access is ReadWrite,
        r.byte_order is BigEndian,
        r.reset_value == 0x82,
        r.fields@.len() == 6,
        r.fields@[0] == (FieldDescriptor { offset: 7, width: 1, kind: FieldKind::Boolean }),
        r.fields@[1] == (FieldDescriptor { offset: 6, width: 1, kind: FieldKind::Boolean }),
        r.fields@[2] == (FieldDescriptor { offset: 5, width: 1, kind: FieldKind::Boolean }),
        r.fields@[3] == (FieldDescriptor { offset: 4, width: 1, kind: FieldKind::Boolean }),
        r.fields@[4] == (FieldDescriptor { offset: 3, width: 1, kind: FieldKind::Boolean }),
        r.fields@[5].offset == 0,
        r.fields@[5].width == 2,
        r.fields@[5].kind matches FieldKind::Enumeration(e) && e.variants@ =~= seq![
            VariantPattern::Exact(0),
            VariantPattern::CatchAll,
            VariantPattern::Exact(2),
        ],
{
    let mut fields: Vec<FieldDescriptor> = Vec::new();
    fields.push(FieldDescriptor { offset: 7, width: 1, kind: FieldKind::Boolean });
    fields.push(FieldDescriptor { offset: 6, width: 1, kind: FieldKind::Boolean });
    fields.push(FieldDescriptor { offset: 5, width: 1, kind: FieldKind::Boolean });
    fields.push(FieldDescriptor { offset: 4, width: 1, kind: FieldKind::Boolean });
    fields.push(FieldDescriptor { offset: 3, width: 1, kind: FieldKind::Boolean });
    fields.push(FieldDescriptor { offset: 0, width: 2, kind: FieldKind::Enumeration(enum_dmp_data_rate()) });
    let r = RegisterDescriptor {
        address: 0x0056,
        size_bits: 8,
        access: Access::ReadWrite,
        byte_order: ByteOrder::BigEndian,
        reset_value: 0x82,
        fields,
    };
    proof {
        lemma_mask_values();
        assert(register_wf(r));
    }
    r
}

/// The `SmdConfig` register of bank 0, at in-bank offset 0x57.
/// Fields, in declaration order: `wom_int_mode`, `wom_mode`, `smd_mode`.
pub fn smd_config() -> (r: RegisterDescriptor)
    ensures
        register_wf(r),
        r.address == 0x0057,
        r.size_bits == 8,
        r.access is ReadWrite,
        r.byte_order is BigEndian,
        r.reset_value == 0x00,
        r.fields@.len() == 3,
        r.fields@[0] == (FieldDescriptor { offset: 3, width: 1, kind: FieldKind::Boolean }),
        r.fields@[1] == (FieldDescriptor { offset: 2, width: 1, kind: FieldKind::Boolean }),
        r.fields@[2].offset == 0,
        r.fields@[2].width == 2,
        r.fields@[2].kind matches FieldKind::Enumeration(e) && e.variants@ =~= seq![
            VariantPattern::Exact(0),
            VariantPattern::Exact(1),
            VariantPattern::Exact(2),
            VariantPattern::Exact(3),
        ],
{
    let mut fields: Vec<FieldDescriptor> = Vec::new();
    fields.push(FieldDescriptor { offset: 3, width: 1, kind: FieldKind::Boolean });
    fields.push(FieldDescriptor { offset: 2, width: 1, kind: FieldKind::Boolean });
    fields.push(FieldDescriptor { offset: 0, width: 2, kind: FieldKind::Enumeration(enum_smd_mode()) });
    let r = RegisterDescriptor {
        address: 0x0057,
        size_bits: 8,
        access: Access::ReadWrite,
        byte_order: ByteOrder::BigEndian,
        reset_value: 0x00,
        fields,
    };
    proof {
        lemma_mask_values();
        assert(register_wf(r));
    }
    r
}

/// The `FifoConfig1` register of bank 0, at in-bank offset 0x5f.
/// Fields, in declaration order: `fifo_resume_partial_rd`, `fifo_wm_gt_th`, `fifo_tmst_fsync_en`, `fifo_temp_en`, `fifo_gyro_en`, `fifo_accel_en`.
pub fn fifo_config1() -> (r: RegisterDescriptor)
    ensures
        register_wf(r),
        r.address == 0x005f,
        r.size_bits == 8,
        r.access is ReadWrite,
        r.byte_order is BigEndian,
        r.reset_value == 0x00,
        r.fields@.len() == 6,
        r.fields@[0] == (FieldDescriptor { offset: 6, width: 1, kind: FieldKind::Boolean }),
        r.fields@[1] == (FieldDescriptor { offset: 5, width: 1, kind: FieldKind::Boolean }),
        r.fields@[2] == (FieldDescriptor { offset: 3, width: 1, kind: FieldKind::Boolean }),
        r.fields@[3] == (FieldDescriptor { offset: 2, width: 1, kind: FieldKind::Boolean }),
        r.fields@[4] == (FieldDescriptor { offset: 1, width: 1, kind: FieldKind::Boolean }),
        r.fields@[5] == (FieldDescriptor { offset: 0, width: 1, kind: FieldKind::Boolean }),
{
    let mut fields: Vec<FieldDescriptor> = Vec::new();
    fields.push(FieldDescriptor { offset: 6, width: 1, kind: FieldKind::Boolean });
    fields.push(FieldDescriptor { offset: 5, width: 1, kind: FieldKind::Boolean });
    fields.push(FieldDescriptor { offset: 3, width: 1, kind: FieldKind::Boolean });
    fields.push(FieldDescriptor { offset: 2, width: 1, kind: FieldKind::Boolean });
    fields.push(FieldDescriptor { offset: 1, width: 1, kind: FieldKind::Boolean });
    fields.push(FieldDescriptor { offset: 0, width: 1, kind: FieldKind::Boolean });
    let r = RegisterDescriptor {
        address: 0x005f,
        size_bits: 8,
        access: Access::ReadWrite,
        byte_order: ByteOrder::BigEndian,
        reset_value: 0x00,
        fields,
    };
    proof {
        lemma_mask_values();
        assert(register_wf(r));
    }
    r
}

/// The `FifoWatermark` register of bank 0, at in-bank offset 0x60.
/// Fields, in declaration order: `value`.
pub fn fifo_watermark() -> (r: RegisterDescriptor)
    ensures
        register_wf(r),
        r.address == 0x0060,
        r.size_bits == 16,
        r.access is ReadWrite,
        r.byte_order is LittleEndian,
        r.reset_value == 0x00,
        r.fields@.len() == 1,
        r.fields@[0] == (FieldDescriptor { offset: 0, width: 12, kind: FieldKind::Unsigned }),
{
    let mut fields: Vec<FieldDescriptor> = Vec::new();
    fields.push(FieldDescriptor { offset: 0, width: 12, kind: FieldKind::Unsigned });
    let r = RegisterDescriptor {
        address: 0x0060,
        size_bits: 16,
        access: Access::ReadWrite,
        byte_order: ByteOrder::LittleEndian,
        reset_value: 0x00,
        fields,
    };
    proof {
        lemma_mask_values();
        assert(register_wf(r));
    }
    r
}

/// The `FsyncConfig` register of bank 0, at in-bank offset 0x62.
/// Fields, in declaration order: `fsync_ui_sel`, `fsync_ui_flag_clear_sel`, `fsync_polarity`.
pub fn fsync_config() -> (r: RegisterDescriptor)
    ensures
        register_wf(r),
        r.address == 0x0062,
        r.size_bits == 8,
        r.access is ReadWrite,
        r.byte_order is BigEndian,
        r.reset_value == 0x10,
        r.fields@.len() == 3,
        r.fields@[0].offset == 4,
        r.fields@[0].width == 3,
        r.fields@[0].kind matches FieldKind::Enumeration(e) && e.variants@ =~= seq![
            VariantPattern::Exact(0),
            VariantPattern::Exact(1),
            VariantPattern::Exact(2),
            VariantPattern::Exact(3),
            VariantPattern::Exact(4),
            VariantPattern::Exact(5),
            VariantPattern::Exact(6),
            VariantPattern::Exact(7),
        ],
        r.fields@[1] == (FieldDescriptor { offset: 1, width: 1, kind: FieldKind::Boolean }),
        r.fields@[2] == (FieldDescriptor { offset: 0, width: 1, kind: FieldKind::Boolean }),
{
    let mut fields: Vec<FieldDescriptor> = Vec::new();
    fields.push(FieldDescriptor { offset: 4, width: 3, kind: FieldKind::Enumeration(enum_fsync_flag()) });
    fields.push(FieldDescriptor { offset: 1, width: 1, kind: FieldKind::Boolean });
    fields.push(FieldDescriptor { offset: 0, width: 1, kind: FieldKind::Boolean });
    let r = RegisterDescriptor {
        address: 0x0062,
        size_bits: 8,
        access: Access::ReadWrite,
        byte_order: ByteOrder::BigEndian,
        reset_value: 0x10,
        fields,
    };
    proof {
        lemma_mask_values();
        assert(register_wf(r));
    }
    r
}

/// The `IntConfig0` register of bank 0, at in-bank offset 0x63.
/// Fields, in declaration order: `ui_drdy_int_clear`, `fifo_ths_int_clear`, `fifo_full_int_clear`.
pub fn int_config0() -> (r: RegisterDescriptor)
    ensures
        register_wf(r),
        r.address == 0x0063,
        r.size_bits == 8,
        r.access is ReadWrite,
        r.byte_order is BigEndian,
        r.reset_value == 0x00,
        r.fields@.len() == 3,
        r.fields@[0].offset == 4,
        r.fields@[0].width == 2,
        r.fields@[0].kind matches FieldKind::Enumeration(e) && e.variants@ =~= seq![
            VariantPattern::Exact(0),
            VariantPattern::Exact(1),
            VariantPattern::Exact(2),
            VariantPattern::Exact(3),
        ],
        r.fields@[1].offset == 2,
        r.fields@[1].width == 2,
        r.fields@[1].kind matches FieldKind::Enumeration(e) && e.variants@ =~= seq![
            VariantPattern::Exact(0),
            VariantPattern::Exact(1),
            VariantPattern::Exact(2),
            VariantPattern::Exact(3),
        ],
        r.fields@[2].offset == 0,
        r.fields@[2].width == 2,
        r.fields@[2].kind matches FieldKind::Enumeration(e) && e.variants@ =~= seq![
            VariantPattern::Exact(0),
            VariantPattern::Exact(1),
            VariantPattern::Exact(2),
            VariantPattern::Exact(3),
        ],
{
    let mut fields: Vec<FieldDescriptor> = Vec::new();
    fields.push(FieldDescriptor { offset: 4, width: 2, kind: FieldKind::Enumeration(enum_int_clear_option()) });
    fields.push(FieldDescriptor { offset: 2, width: 2, kind: FieldKind::Enumeration(enum_int_clear_option()) });
    fields.push(FieldDescriptor { offset: 0, width: 2, kind: FieldKind::Enumeration(enum_int_clear_option()) });
    let r = RegisterDescriptor {
        address: 0x0063,
        size_bits: 8,
        access: Access::ReadWrite,
        byte_order: ByteOrder::BigEndian,
        reset_value: 0x00,
        fields,
    };
    proof {
        lemma_mask_values();
        assert(register_wf(r));
    }
    r
}

/// The `IntConfig1` register of bank 0, at in-bank offset 0x64.
/// Fields, in declaration order: `int_tpulse_duration`, `int_tdeassert_disable`, `int_async_reset`.
pub fn int_config1() -> (r: RegisterDescriptor)
    ensures
        register_wf(r),
        r.address == 0x0064,
        r.size_bits == 8,
        r.access is ReadWrite,
        r.byte_order is BigEndian,
        r.reset_value == 0x10,
        r.fields@.len() == 3,
        r.fields@[0] == (FieldDescriptor { offset: 6, width: 1, kind: FieldKind::Boolean }),
        r.fields@[1] == (FieldDescriptor { offset: 5, width: 1, kind: FieldKind::Boolean }),
        r.fields@[2] == (FieldDescriptor { offset: 4, width: 1, kind: FieldKind::Boolean }),
{
    let mut fields: Vec<FieldDescriptor> = Vec::new();
    fields.push(FieldDescriptor { offset: 6, width: 1, kind: FieldKind::Boolean });
    fields.push(FieldDescriptor { offset: 5, width: 1, kind: FieldKind::Boolean });
    fields.push(FieldDescriptor { offset: 4, width: 1, kind: FieldKind::Boolean });
    let r = RegisterDescriptor {
        address: 0x0064,
        size_bits: 8,
        access: Access::ReadWrite,
        byte_order: ByteOrder::BigEndian,
        reset_value: 0x10,
        fields,
    };
    proof {
        lemma_mask_values();
        assert(register_wf(r));
    }
    r
}

/// The `IntSource0` register of bank 0, at in-bank offset 0x65.
/// Fields, in declaration order: `ui_fsync_int1_en`, `pll_rdy_int1_en`, `reset_down_int1_en`, `ui_drdy_int1_en`, `fifo_ths_int1_en`, `fifo_full_int1_en`, `ui_agc_rdy_int1_en`.
pub fn int_source0() -> (r: RegisterDescriptor)
    ensures
        register_wf(r),
        r.address == 0x0065,
        r.size_bits == 8,
        r.access is ReadWrite,
        r.byte_order is BigEndian,
        r.reset_value == 0x10,
        r.fields@.len() == 7,
        r.fields@[0] == (FieldDescriptor { offset: 6, width: 1, kind: FieldKind::Boolean }),
        r.fields@[1] == (FieldDescriptor { offset: 5, width: 1, kind: FieldKind::Boolean }),
        r.fields@[2] == (FieldDescriptor { offset: 4, width: 1, kind: FieldKind::Boolean }),
        r.fields@[3] == (FieldDescriptor { offset: 3, width: 1, kind: FieldKind::Boolean }),
        r.fields@[4] == (FieldDescriptor { offset: 2, width: 1, kind: FieldKind::Boolean }),
        r.fields@[5] == (FieldDescriptor { offset: 1, width: 1, kind: FieldKind::Boolean }),
        r.fields@[6] == (FieldDescriptor { offset: 0, width: 1, kind: FieldKind::Boolean }),
{
    let mut fields: Vec<FieldDescriptor> = Vec::new();
    fields.push(FieldDescriptor { offset: 6, width: 1, kind: FieldKind::Boolean });
    fields.push(FieldDescriptor { offset: 5, width: 1, kind: FieldKind::Boolean });
    fields.push(FieldDescriptor { offset: 4, width: 1, kind: FieldKind::Boolean });
    fields.push(FieldDescriptor { offset: 3, width: 1, kind: FieldKind::Boolean });
    fields.push(FieldDescriptor { offset: 2, width: 1, kind: FieldKind::Boolean });
    fields.push(FieldDescriptor { offset: 1, width: 1, kind: FieldKind::Boolean });
    fields.push(FieldDescriptor { offset: 0, width: 1, kind: FieldKind::Boolean });
    let r = RegisterDescriptor {
        address: 0x0065,
        size_bits: 8,
        access: Access::ReadWrite,
        byte_order: ByteOrder::BigEndian,
        reset_value: 0x10,
        fields,
    };
    proof {
        lemma_mask_values();
        assert(register_wf(r));
    }
    r
}

/// The `IntSource1` register of bank 0, at in-bank offset 0x66.
/// Fields, in declaration order: `i3c_protocol_error_int1_en`, `smd_int1_en`, `wom_z_int1_en`, `wom_y_int1_en`, `wom_x_int1_en`.
pub fn int_source1() -> (r: RegisterDescriptor)
    ensures
        register_wf(r),
        r.address == 0x0066,
        r.size_bits == 8,
        r.access is ReadWrite,
        r.byte_order is BigEndian,
        r.reset_value == 0x00,
        r.fields@.len() == 5,
        r.fields@[0] == (FieldDescriptor { offset: 6, width: 1, kind: FieldKind::Boolean }),
        r.fields@[1] == (FieldDescriptor { offset: 3, width: 1, kind: FieldKind::Boolean }),
        r.fields@[2] == (FieldDescriptor { offset: 2, width: 1, kind: FieldKind::Boolean }),
        r.fields@[3] == (FieldDescriptor { offset: 1, width: 1, kind: FieldKind::Boolean }),
        r.fields@[4] == (FieldDescriptor { offset: 0, width: 1, kind: FieldKind::Boolean }),
{
    let mut fields: Vec<FieldDescriptor> = Vec::new();
    fields.push(FieldDescriptor { offset: 6, width: 1, kind: FieldKind::Boolean });
    fields.push(FieldDescriptor { offset: 3, width: 1, kind: FieldKind::Boolean });
    fields.push(FieldDescriptor { offset: 2, width: 1, kind: FieldKind::Boolean });
    fields.push(FieldDescriptor { offset: 1, width: 1, kind: FieldKind::Boolean });
    fields.push(FieldDescriptor { offset: 0, width: 1, kind: FieldKind::Boolean });
    let r = RegisterDescriptor {
        address: 0x0066,
        size_bits: 8,
        access: Access::ReadWrite,
        byte_order: ByteOrder::BigEndian,
        reset_value: 0x00,
        fields,
    };
    proof {
        lemma_mask_values();
        assert(register_wf(r));
    }
    r
}

/// The `IntSource3` register of bank 0, at in-bank offset 0x68.
/// Fields, in declaration order: `ui_fsync_int2_en`, `pll_rdy_int2_en`, `reset_down_int2_en`, `ui_drdy_int2_en`, `fifo_ths_int2_en`, `fifo_full_int2_en`, `ui_agc_rdy_int2_en`.
pub fn int_source3() -> (r: RegisterDescriptor)
    ensures
        register_wf(r),
        r.address == 0x0068,
        r.size_bits == 8,
        r.access is ReadWrite,
        r.byte_order is BigEndian,
        r.reset_value == 0x00,
        r.fields@.len() == 7,
        r.fields@[0] == (FieldDescriptor { offset: 6, width: 1, kind: FieldKind::Boolean }),
        r.fields@[1] == (FieldDescriptor { offset: 5, width: 1, kind: FieldKind::Boolean }),
        r.fields@[2] == (FieldDescriptor { offset: 4, width: 1, kind: FieldKind::Boolean }),
        r.fields@[3] == (FieldDescriptor { offset: 3, width: 1, kind: FieldKind::Boolean }),
        r.fields@[4] == (FieldDescriptor { offset: 2, width: 1, kind: FieldKind::Boolean }),
        r.fields@[5] == (FieldDescriptor { offset: 1, width: 1, kind: FieldKind::Boolean }),
        r.fields@[6] == (FieldDescriptor { offset: 0, width: 1, kind: FieldKind::Boolean }),
{
    let mut fields: Vec<FieldDescriptor> = Vec::new();
    fields.push(FieldDescriptor { offset: 6, width: 1, kind: FieldKind::Boolean });
    fields.push(FieldDescriptor { offset: 5, width: 1, kind: FieldKind::Boolean });
    fields.push(FieldDescriptor { offset: 4, width: 1, kind: FieldKind::Boolean });
    fields.push(FieldDescriptor { offset: 3, width: 1, kind: FieldKind::Boolean });
    fields.push(FieldDescriptor { offset: 2, width: 1, kind: FieldKind::Boolean });
    fields.push(FieldDescriptor { offset: 1, width: 1, kind: FieldKind::Boolean });
    fields.push(FieldDescriptor { offset: 0, width: 1, kind: FieldKind::Boolean });
    let r = RegisterDescriptor {
        address: 0x0068,
        size_bits: 8,
        access: Access::ReadWrite,
        byte_order: ByteOrder::BigEndian,
        reset_value: 0x00,
        fields,
    };
    proof {
        lemma_mask_values();
        assert(register_wf(r));
    }
    r
}

/// The `IntSource4` register of bank 0, at in-bank offset 0x69.
/// Fields, in declaration order: `i3c_protocol_error_int2_en`, `smd_int2_en`, `wom_z_int2_en`, `wom_y_int2_en`, `wom_x_int2_en`.
pub fn int_source4() -> (r: RegisterDescriptor)
    ensures
        register_wf(r),
        r.address == 0x0069,
        r.size_bits == 8,
        r.access is ReadWrite,
        r.byte_order is BigEndian,
        r.reset_value == 0x00,
        r.fields@.len() == 5,
        r.fields@[0] == (FieldDescriptor { offset: 6, width: 1, kind: FieldKind::Boolean }),
        r.fields@[1] == (FieldDescriptor { offset: 3, width: 1, kind: FieldKind::Boolean }),
        r.fields@[2] == (FieldDescriptor { offset: 2, width: 1, kind: FieldKind::Boolean }),
        r.fields@[3] == (FieldDescriptor { offset: 1, width: 1, kind: FieldKind::Boolean }),
        r.fields@[4] == (FieldDescriptor { offset: 0, width: 1, kind: FieldKind::Boolean }),
{
    let mut fields: Vec<FieldDescriptor> = Vec::new();
    fields.push(FieldDescriptor { offset: 6, width: 1, kind: FieldKind::Boolean });
    fields.push(FieldDescriptor { offset: 3, width: 1, kind: FieldKind::Boolean });
    fields.push(FieldDescriptor { offset: 2, width: 1, kind: FieldKind::Boolean });
    fields.push(FieldDescriptor { offset: 1, width: 1, kind: FieldKind::Boolean });
    fields.push(FieldDescriptor { offset: 0, width: 1, kind: FieldKind::Boolean });
    let r = RegisterDescriptor {
        address: 0x0069,
        size_bits: 8,
        access: Access::ReadWrite,
        byte_order: ByteOrder::BigEndian,
        reset_value: 0x00,
        fields,
    };
    proof {
        lemma_mask_values();
        assert(register_wf(r));
    }
    r
}

/// The `FifoLostPkt` register of bank 0, at in-bank offset 0x6c.
/// Fields, in declaration order: `value`.
pub fn fifo_lost_pkt() -> (r: RegisterDescriptor)
    ensures
        register_wf(r),
        r.address == 0x006c,
        r.size_bits == 16,
        r.access is ReadOnly,
        r.byte_order is LittleEndian,
        r.reset_value == 0x00,
        r.fields@.len() == 1,
        r.fields@[0] == (FieldDescriptor { offset: 0, width: 16, kind: FieldKind::Unsigned }),
{
    let mut fields: Vec<FieldDescriptor> = Vec::new();
    fields.push(FieldDescriptor { offset: 0, width: 16, kind: FieldKind::Unsigned });
    let r = RegisterDescriptor {
        address: 0x006c,
        size_bits: 16,
        access: Access::ReadOnly,
        byte_order: ByteOrder::LittleEndian,
        reset_value: 0x00,
        fields,
    };
    proof {
        lemma_mask_values();
        assert(register_wf(r));
    }
    r
}

/// The `SelfTestConfig` register of bank 0, at in-bank offset 0x70.
/// Fields, in declaration order: `accel_st_power`, `en_az_st`, `en_ay_st`, `en_ax_st`, `en_gz_st`, `en_gy_st`, `en_gx_st`.
pub fn self_test_config() -> (r: RegisterDescriptor)
    ensures
        register_wf(r),
        r.address == 0x0070,
        r.size_bits == 8,
        r.access is ReadWrite,
        r.byte_order is BigEndian,
        r.reset_value == 0x00,
        r.fields@.len() == 7,
        r.fields@[0] == (FieldDescriptor { offset: 6, width: 1, kind: FieldKind::Boolean }),
        r.fields@[1] == (FieldDescriptor { offset: 5, width: 1, kind: FieldKind::Boolean }),
        r.fields@[2] == (FieldDescriptor { offset: 4, width: 1, kind: FieldKind::Boolean }),
        r.fields@[3] == (FieldDescriptor { offset: 3, width: 1, kind: FieldKind::Boolean }),
        r.fields@[4] == (FieldDescriptor { offset: 2, width: 1, kind: FieldKind::Boolean }),
        r.fields@[5] == (FieldDescriptor { offset: 1, width: 1, kind: FieldKind::Boolean }),
        r.fields@[6] == (FieldDescriptor { offset: 0, width: 1, kind: FieldKind::Boolean }),
{
    let mut fields: Vec<FieldDescriptor> = Vec::new();
    fields.push(FieldDescriptor { offset: 6, width: 1, kind: FieldKind::Boolean });
    fields.push(FieldDescriptor { offset: 5, width: 1, kind: FieldKind::Boolean });
    fields.push(FieldDescriptor { offset: 4, width: 1, kind: FieldKind::Boolean });
    fields.push(FieldDescriptor { offset: 3, width: 1, kind: FieldKind::Boolean });
    fields.push(FieldDescriptor { offset: 2, width: 1, kind: FieldKind::Boolean });
    fields.push(FieldDescriptor { offset: 1, width: 1, kind: FieldKind::Boolean });
    fields.push(FieldDescriptor { offset: 0, width: 1, kind: FieldKind::Boolean });
    let r = RegisterDescriptor {
        address: 0x0070,
        size_bits: 8,
        access: Access::ReadWrite,
        byte_order: ByteOrder::BigEndian,
        reset_value: 0x00,
        fields,
    };
    proof {
        lemma_mask_values();
        assert(register_wf(r));
    }
    r
}

/// The `WhoAmI` register of bank 0, at in-bank offset 0x75.
/// Fields, in declaration order: `whoami`.
pub fn who_am_i() -> (r: RegisterDescriptor)
    ensures
        register_wf(r),
        r.address == 0x0075,
        r.size_bits == 8,
        r.access is ReadOnly,
        r.byte_order is BigEndian,
        r.reset_value == 0x00,
        r.fields@.len() == 1,
        r.fields@[0] == (FieldDescriptor { offset: 0, width: 8, kind: FieldKind::Unsigned }),
{
    let mut fields: Vec<FieldDescriptor> = Vec::new();
    fields.push(FieldDescriptor { offset: 0, width: 8, kind: FieldKind::Unsigned });
    let r = RegisterDescriptor {
        address: 0x0075,
        size_bits: 8,
        access: Access::ReadOnly,
        byte_order: ByteOrder::BigEndian,
        reset_value: 0x00,
        fields,
    };
    proof {
        lemma_mask_values();
        assert(register_wf(r));
    }
    r
}

/// The `SensorConfig` register of bank 1, at in-bank offset 0x03.
/// Fields, in declaration order: `zg_disable`, `yg_disable`, `xg_disable`, `za_disable`, `ya_disable`, `xa_disable`.
pub fn sensor_config() -> (r: RegisterDescriptor)
    ensures
        register_wf(r),
        r.address == 0x0103,
        r.size_bits == 8,
        r.access is ReadWrite,
        r.byte_order is BigEndian,
        r.reset_value == 0x00,
        r.fields@.len() == 6,
        r.fields@[0] == (FieldDescriptor { offset: 5, width: 1, kind: FieldKind::Boolean }),
        r.fields@[1] == (FieldDescriptor { offset: 4, width: 1, kind: FieldKind::Boolean }),
        r.fields@[2] == (FieldDescriptor { offset: 3, width: 1, kind: FieldKind::Boolean }),
        r.fields@[3] == (FieldDescriptor { offset: 2, width: 1, kind: FieldKind::Boolean }),
        r.fields@[4] == (FieldDescriptor { offset: 1, width: 1, kind: FieldKind::Boolean }),
        r.fields@[5] == (FieldDescriptor { offset: 0, width: 1, kind: FieldKind::Boolean }),
{
    let mut fields: Vec<FieldDescriptor> = Vec::new();
    fields.push(FieldDescriptor { offset: 5, width: 1, kind: FieldKind::Boolean });
    fields.push(FieldDescriptor { offset: 4, width: 1, kind: FieldKind::Boolean });
    fields.push(FieldDescriptor { offset: 3, width: 1, kind: FieldKind::Boolean });
    fields.push(FieldDescriptor { offset: 2, width: 1, kind: FieldKind::Boolean });
    fields.push(FieldDescriptor { offset: 1, width: 1, kind: FieldKind::Boolean });
    fields.push(FieldDescriptor { offset: 0, width: 1, kind: FieldKind::Boolean });
    let r = RegisterDescriptor {
        address: 0x0103,
        size_bits: 8,
        access: Access::ReadWrite,
        byte_order: ByteOrder::BigEndian,
        reset_value: 0x00,
        fields,
    };
    proof {
        lemma_mask_values();
        assert(register_wf(r));
    }
    r
}

/// The `GyroConfigStatic2` register of bank 1, at in-bank offset 0x0b.
/// Fields, in declaration order: `gyro_aaf_dis`, `gyro_nf_dis`.
pub fn gyro_config_static2() -> (r: RegisterDescriptor)
    ensures
        register_wf(r),
        r.address == 0x010b,
        r.size_bits == 8,
        r.access is ReadWrite,
        r.byte_order is BigEndian,
        r.reset_value == 0xa8,
        r.fields@.len() == 2,
        r.fields@[0] == (FieldDescriptor { offset: 1, width: 1, kind: FieldKind::Boolean }),
        r.fields@[1] == (FieldDescriptor { offset: 0, width: 1, kind: FieldKind::Boolean }),
{
    let mut fields: Vec<FieldDescriptor> = Vec::new();
    fields.push(FieldDescriptor { offset: 1, width: 1, kind: FieldKind::Boolean });
    fields.push(FieldDescriptor { offset: 0, width: 1, kind: FieldKind::Boolean });
    let r = RegisterDescriptor {
        address: 0x010b,
        size_bits: 8,
        access: Access::ReadWrite,
        byte_order: ByteOrder::BigEndian,
        reset_value: 0xa8,
        fields,
    };
    proof {
        lemma_mask_values();
        assert(register_wf(r));
    }
    r
}

/// The `GyroAntiAliasFilterConfig` register of bank 1, at in-bank offset 0x0c.
/// Fields, in declaration order: `gyro_aaf_delt`, `gyro_aaf_deltsqr`, `gyro_aaf_bitshift`.
pub fn gyro_anti_alias_filter_config() -> (r: RegisterDescriptor)
    ensures
        register_wf(r),
        r.address == 0x010c,
        r.size_bits == 24,
        r.access is ReadWrite,
        r.byte_order is LittleEndian,
        r.reset_value == 0x3f,
        r.fields@.len() == 3,
        r.fields@[0] == (FieldDescriptor { offset: 0, width: 6, kind: FieldKind::Unsigned }),
        r.fields@[1] == (FieldDescriptor { offset: 8, width: 12, kind: FieldKind::Unsigned }),
        r.fields@[2] == (FieldDescriptor { offset: 20, width: 4, kind: FieldKind::Unsigned }),
{
    let mut fields: Vec<FieldDescriptor> = Vec::new();
    fields.push(FieldDescriptor { offset: 0, width: 6, kind: FieldKind::Unsigned });
    fields.push(FieldDescriptor { offset: 8, width: 12, kind: FieldKind::Unsigned });
    fields.push(FieldDescriptor { offset: 20, width: 4, kind: FieldKind::Unsigned });
    let r = RegisterDescriptor {
        address: 0x010c,
        size_bits: 24,
        access: Access::ReadWrite,
        byte_order: ByteOrder::LittleEndian,
        reset_value: 0x3f,
        fields,
    };
    proof {
        lemma_mask_values();
        assert(register_wf(r));
    }
    r
}

/// The `GyroXNfCoswz` register of bank 1, at in-bank offset 0x0f.
/// Fields, in declaration order: `value`.
pub fn gyro_x_nf_coswz() -> (r: RegisterDescriptor)
    ensures
        register_wf(r),
        r.address == 0x010f,
        r.size_bits == 8,
        r.access is ReadWrite,
        r.byte_order is BigEndian,
        r.reset_value == 0x00,
        r.fields@.len() == 1,
        r.fields@[0] == (FieldDescriptor { offset: 0, width: 8, kind: FieldKind::Unsigned }),
{
    let mut fields: Vec<FieldDescriptor> = Vec::new();
    fields.push(FieldDescriptor { offset: 0, width: 8, kind: FieldKind::Unsigned });
    let r = RegisterDescriptor {
        address: 0x010f,
        size_bits: 8,
        access: Access::ReadWrite,
        byte_order: ByteOrder::BigEndian,
        reset_value: 0x00,
        fields,
    };
    proof {
        lemma_mask_values();
        assert(register_wf(r));
    }
    r
}

/// The `GyroYNfCoswz` register of bank 1, at in-bank offset 0x10.
/// Fields, in declaration order: `value`.
pub fn gyro_y_nf_coswz() -> (r: RegisterDescriptor)
    ensures
        register_wf(r),
        r.address == 0x0110,
        r.size_bits == 8,
        r.access is ReadWrite,
        r.byte_order is BigEndian,
        r.reset_value == 0x00,
        r.fields@.len() == 1,
        r.fields@[0] == (FieldDescriptor { offset: 0, width: 8, kind: FieldKind::Unsigned }),
{
    let mut fields: Vec<FieldDescriptor> = Vec::new();
    fields.push(FieldDescriptor { offset: 0, width: 8, kind: FieldKind::Unsigned });
    let r = RegisterDescriptor {
        address: 0x0110,
        size_bits: 8,
        access: Access::ReadWrite,
        byte_order: ByteOrder::BigEndian,
        reset_value: 0x00,
        fields,
    };
    proof {
        lemma_mask_values();
        assert(register_wf(r));
    }
    r
}

/// The `GyroZNfCoswz` register of bank 1, at in-bank offset 0x11.
/// Fields, in declaration order: `value`.
pub fn gyro_z_nf_coswz() -> (r: RegisterDescriptor)
    ensures
        register_wf(r),
        r.address == 0x0111,
        r.size_bits == 8,
        r.access is ReadWrite,
        r.byte_order is BigEndian,
        r.reset_value == 0x00,
        r.fields@.len() == 1,
        r.fields@[0] == (FieldDescriptor { offset: 0, width: 8, kind: FieldKind::Unsigned }),
{
    let mut fields: Vec<FieldDescriptor> = Vec::new();
    fields.push(FieldDescriptor { offset: 0, width: 8, kind: FieldKind::Unsigned });
    let r = RegisterDescriptor {
        address: 0x0111,
        size_bits: 8,
        access: Access::ReadWrite,
        byte_order: ByteOrder::BigEndian,
        reset_value: 0x00,
        fields,
    };
    proof {
        lemma_mask_values();
        assert(register_wf(r));
    }
    r
}

/// The `GyroConfigStatic9` register of bank 1, at in-bank offset 0x12.
/// Fields, in declaration order: `gyro_z_nf_coswz_sel`, `gyro_y_nf_coswz_sel`, `gyro_x_nf_coswz_sel`, `gyro_z_nf_coswz`, `gyro_y_nf_coswz`, `gyro_x_nf_coswz`.
pub fn gyro_config_static9() -> (r: RegisterDescriptor)
    ensures
        register_wf(r),
        r.address == 0x0112,
        r.size_bits == 8,
        r.access is ReadWrite,
        r.byte_order is BigEndian,
        r.reset_value == 0x00,
        r.fields@.len() == 6,
        r.fields@[0] == (FieldDescriptor { offset: 5, width: 1, kind: FieldKind::Boolean }),
        r.fields@[1] == (FieldDescriptor { offset: 4, width: 1, kind: FieldKind::Boolean }),
        r.fields@[2] == (FieldDescriptor { offset: 3, width: 1, kind: FieldKind::Boolean }),
        r.fields@[3] == (FieldDescriptor { offset: 2, width: 1, kind: FieldKind::Boolean }),
        r.fields@[4] == (FieldDescriptor { offset: 1, width: 1, kind: FieldKind::Boolean }),
        r.fields@[5] == (FieldDescriptor { offset: 0, width: 1, kind: FieldKind::Boolean }),
{
    let mut fields: Vec<FieldDescriptor> = Vec::new();
    fields.push(FieldDescriptor { offset: 5, width: 1, kind: FieldKind::Boolean });
    fields.push(FieldDescriptor { offset: 4, width: 1, kind: FieldKind::Boolean });
    fields.push(FieldDescriptor { offset: 3, width: 1, kind: FieldKind::Boolean });
    fields.push(FieldDescriptor { offset: 2, width: 1, kind: FieldKind::Boolean });
    fields.push(FieldDescriptor { offset: 1, width: 1, kind: FieldKind::Boolean });
    fields.push(FieldDescriptor { offset: 0, width: 1, kind: FieldKind::Boolean });
    let r = RegisterDescriptor {
        address: 0x0112,
        size_bits: 8,
        access: Access::ReadWrite,
        byte_order: ByteOrder::BigEndian,
        reset_value: 0x00,
        fields,
    };
    proof {
        lemma_mask_values();
        assert(register_wf(r));
    }
    r
}

/// The `GyroConfigStatic10` register of bank 1, at in-bank offset 0x13.
/// Fields, in declaration order: `gyro_nf_bw_sel`.
pub fn gyro_config_static10() -> (r: RegisterDescriptor)
    ensures
        register_wf(r),
        r.address == 0x0113,
        r.size_bits == 8,
        r.access is ReadWrite,
        r.byte_order is BigEndian,
        r.reset_value == 0x11,
        r.fields@.len() == 1,
        r.fields@[0] == (FieldDescriptor { offset: 4, width: 3, kind: FieldKind::Unsigned }),
{
    let mut fields: Vec<FieldDescriptor> = Vec::new();
    fields.push(FieldDescriptor { offset: 4, width: 3, kind: FieldKind::Unsigned });
    let r = RegisterDescriptor {
        address: 0x0113,
        size_bits: 8,
        access: Access::ReadWrite,
        byte_order: ByteOrder::BigEndian,
        reset_value: 0x11,
        fields,
    };
    proof {
        lemma_mask_values();
        assert(register_wf(r));
    }
    r
}

/// The `XgStData` register of bank 1, at in-bank offset 0x5f.
/// Fields, in declaration order: `value`.
pub fn xg_st_data() -> (r: RegisterDescriptor)
    ensures
        register_wf(r),
        r.address == 0x015f,
        r.size_bits == 8,
        r.access is ReadWrite,
        r.byte_order is BigEndian,
        r.reset_value == 0x00,
        r.fields@.len() == 1,
        r.fields@[0] == (FieldDescriptor { offset: 0, width: 8, kind: FieldKind::Unsigned }),
{
    let mut fields: Vec<FieldDescriptor> = Vec::new();
    fields.push(FieldDescriptor { offset: 0, width: 8, kind: FieldKind::Unsigned });
    let r = RegisterDescriptor {
        address: 0x015f,
        size_bits: 8,
        access: Access::ReadWrite,
        byte_order: ByteOrder::BigEndian,
        reset_value: 0x00,
        fields,
    };
    proof {
        lemma_mask_values();
        assert(register_wf(r));
    }
    r
}

/// The `YgStData` register of bank 1, at in-bank offset 0x60.
/// Fields, in declaration order: `value`.
pub fn yg_st_data() -> (r: RegisterDescriptor)
    ensures
        register_wf(r),
        r.address == 0x0160,
        r.size_bits == 8,
        r.access is ReadWrite,
        r.byte_order is BigEndian,
        r.reset_value == 0x00,
        r.fields@.len() == 1,
        r.fields@[0] == (FieldDescriptor { offset: 0, width: 8, kind: FieldKind::Unsigned }),
{
    let mut fields: Vec<FieldDescriptor> = Vec::new();
    fields.push(FieldDescriptor { offset: 0, width: 8, kind: FieldKind::Unsigned });
    let r = RegisterDescriptor {
        address: 0x0160,
        size_bits: 8,
        access: Access::ReadWrite,
        byte_order: ByteOrder::BigEndian,
        reset_value: 0x00,
        fields,
    };
    proof {
        lemma_mask_values();
        assert(register_wf(r));
    }
    r
}

/// The `ZgStData` register of bank 1, at in-bank offset 0x61.
/// Fields, in declaration order: `value`.
pub fn zg_st_data() -> (r: RegisterDescriptor)
    ensures
        register_wf(r),
        r.address == 0x0161,
        r.size_bits == 8,
        r.access is ReadWrite,
        r.byte_order is BigEndian,
        r.reset_value == 0x00,
        r.fields@.len() == 1,
        r.fields@[0] == (FieldDescriptor { offset: 0, width: 8, kind: FieldKind::Unsigned }),
{
    let mut fields: Vec<FieldDescriptor> = Vec::new();
    fields.push(FieldDescriptor { offset: 0, width: 8, kind: FieldKind::Unsigned });
    let r = RegisterDescriptor {
        address: 0x0161,
        size_bits: 8,
        access: Access::ReadWrite,
        byte_order: ByteOrder::BigEndian,
        reset_value: 0x00,
        fields,
    };
    proof {
        lemma_mask_values();
        assert(register_wf(r));
    }
    r
}

/// The `TmstVal` register of bank 1, at in-bank offset 0x62.
/// Fields, in declaration order: `value`.
pub fn tmst_val() -> (r: RegisterDescriptor)
    ensures
        register_wf(r),
        r.address == 0x0162,
        r.size_bits == 24,
        r.access is ReadWrite,
        r.byte_order is LittleEndian,
        r.reset_value == 0x00,
        r.fields@.len() == 1,
        r.fields@[0] == (FieldDescriptor { offset: 0, width: 20, kind: FieldKind::Unsigned }),
{
    let mut fields: Vec<FieldDescriptor> = Vec::new();
    fields.push(FieldDescriptor { offset: 0, width: 20, kind: FieldKind::Unsigned });
    let r = RegisterDescriptor {
        address: 0x0162,
        size_bits: 24,
        access: Access::ReadWrite,
        byte_order: ByteOrder::LittleEndian,
        reset_value: 0x00,
        fields,
    };
    proof {
        lemma_mask_values();
        assert(register_wf(r));
    }
    r
}

/// The `IntfConfig4` register of bank 1, at in-bank offset 0x7a.
/// Fields, in declaration order: `i3c_bus_mode`, `spi_ap_4wire`.
pub fn intf_config4() -> (r: RegisterDescriptor)
    ensures
        register_wf(r),
        r.address == 0x017a,
        r.size_bits == 8,
        r.access is ReadWrite,
        r.byte_order is BigEndian,
        r.reset_value == 0x03,
        r.fields@.len() == 2,
        r.fields@[0] == (FieldDescriptor { offset: 6, width: 1, kind: FieldKind::Boolean }),
        r.fields@[1] == (FieldDescriptor { offset: 1, width: 1, kind: FieldKind::Boolean }),
{
    let mut fields: Vec<FieldDescriptor> = Vec::new();
    fields.push(FieldDescriptor { offset: 6, width: 1, kind: FieldKind::Boolean });
    fields.push(FieldDescriptor { offset: 1, width: 1, kind: FieldKind::Boolean });
    let r = RegisterDescriptor {
        address: 0x017a,
        size_bits: 8,
        access: Access::ReadWrite,
        byte_order: ByteOrder::BigEndian,
        reset_value: 0x03,
        fields,
    };
    proof {
        lemma_mask_values();
        assert(register_wf(r));
    }
    r
}

/// The `IntfConfig5` register of bank 1, at in-bank offset 0x7b.
/// Fields, in declaration order: `pin9_function`.
pub fn intf_config5() -> (r: RegisterDescriptor)
    ensures
        register_wf(r),
        r.address == 0x017b,
        r.size_bits == 8,
        r.access is ReadWrite,
        r.byte_order is BigEndian,
        r.reset_value == 0x20,
        r.fields@.len() == 1,
        r.fields@[0].offset == 1,
        r.fields@[0].width == 2,
        r.fields@[0].kind matches FieldKind::Enumeration(e) && e.variants@ =~= seq![
            VariantPattern::Exact(0),
            VariantPattern::Exact(1),
            VariantPattern::CatchAll,
        ],
{
    let mut fields: Vec<FieldDescriptor> = Vec::new();
    fields.push(FieldDescriptor { offset: 1, width: 2, kind: FieldKind::Enumeration(enum_pin9_function()) });
    let r = RegisterDescriptor {
        address: 0x017b,
        size_bits: 8,
        access: Access::ReadWrite,
        byte_order: ByteOrder::BigEndian,
        reset_value: 0x20,
        fields,
    };
    proof {
        lemma_mask_values();
        assert(register_wf(r));
    }
    r
}

/// The `IntfConfig6` register of bank 1, at in-bank offset 0x7c.
/// Fields, in declaration order: `asynctime0_dis`, `i3c_en`, `i3c_ibi_byte_en`, `i3c_ibi_en`, `i3c_ddr_en`, `i3c_sdr_en`.
pub fn intf_config6() -> (r: RegisterDescriptor)
    ensures
        register_wf(r),
        r.address == 0x017c,
        r.size_bits == 8,
        r.access is ReadWrite,
        r.byte_order is BigEndian,
        r.reset_value == 0x5f,
        r.fields@.len() == 6,
        r.fields@[0] == (FieldDescriptor { offset: 7, width: 1, kind: FieldKind::Boolean }),
        r.fields@[1] == (FieldDescriptor { offset: 4, width: 1, kind: FieldKind::Boolean }),
        r.fields@[2] == (FieldDescriptor { offset: 3, width: 1, kind: FieldKind::Boolean }),
        r.fields@[3] == (FieldDescriptor { offset: 2, width: 1, kind: FieldKind::Boolean }),
        r.fields@[4] == (FieldDescriptor { offset: 1, width: 1, kind: FieldKind::Boolean }),
        r.fields@[5] == (FieldDescriptor { offset: 0, width: 1, kind: FieldKind::Boolean }),
{
    let mut fields: Vec<FieldDescriptor> = Vec::new();
    fields.push(FieldDescriptor { offset: 7, width: 1, kind: FieldKind::Boolean });
    fields.push(FieldDescriptor { offset: 4, width: 1, kind: FieldKind::Boolean });
    fields.push(FieldDescriptor { offset: 3, width: 1, kind: FieldKind::Boolean });
    fields.push(FieldDescriptor { offset: 2, width: 1, kind: FieldKind::Boolean });
    fields.push(FieldDescriptor { offset: 1, width: 1, kind: FieldKind::Boolean });
    fields.push(FieldDescriptor { offset: 0, width: 1, kind: FieldKind::Boolean });
    let r = RegisterDescriptor {
        address: 0x017c,
        size_bits: 8,
        access: Access::ReadWrite,
        byte_order: ByteOrder::BigEndian,
        reset_value: 0x5f,
        fields,
    };
    proof {
        lemma_mask_values();
        assert(register_wf(r));
    }
    r
}

/// The `AccelAntiAliasFilterConfig` register of bank 2, at in-bank offset 0x0c.
/// Fields, in declaration order: `accel_aaf_dis`, `accel_aaf_delt`, `accel_aaf_deltsqr`, `accel_aaf_bitshift`.
pub fn accel_anti_alias_filter_config() -> (r: RegisterDescriptor)
    ensures
        register_wf(r),
        r.address == 0x020c,
        r.size_bits == 24,
        r.access is ReadWrite,
        r.byte_order is LittleEndian,
        r.reset_value == 0x3f,
        r.fields@.len() == 4,
        r.fields@[0] == (FieldDescriptor { offset: 0, width: 1, kind: FieldKind::Boolean }),
        r.fields@[1] == (FieldDescriptor { offset: 1, width: 6, kind: FieldKind::Unsigned }),
        r.fields@[2] == (FieldDescriptor { offset: 8, width: 12, kind: FieldKind::Unsigned }),
        r.fields@[3] == (FieldDescriptor { offset: 20, width: 4, kind: FieldKind::Unsigned }),
{
    let mut fields: Vec<FieldDescriptor> = Vec::new();
    fields.push(FieldDescriptor { offset: 0, width: 1, kind: FieldKind::Boolean });
    fields.push(FieldDescriptor { offset: 1, width: 6, kind: FieldKind::Unsigned });
    fields.push(FieldDescriptor { offset: 8, width: 12, kind: FieldKind::Unsigned });
    fields.push(FieldDescriptor { offset: 20, width: 4, kind: FieldKind::Unsigned });
    let r = RegisterDescriptor {
        address: 0x020c,
        size_bits: 24,
        access: Access::ReadWrite,
        byte_order: ByteOrder::LittleEndian,
        reset_value: 0x3f,
        fields,
    };
    proof {
        lemma_mask_values();
        assert(register_wf(r));
    }
    r
}

/// The `XaStData` register of bank 2, at in-bank offset 0x3b.
/// Fields, in declaration order: `value`.
pub fn xa_st_data() -> (r: RegisterDescriptor)
    ensures
        register_wf(r),
        r.address == 0x023b,
        r.size_bits == 8,
        r.access is ReadWrite,
        r.byte_order is BigEndian,
        r.reset_value == 0x00,
        r.fields@.len() == 1,
        r.fields@[0] == (FieldDescriptor { offset: 0, width: 8, kind: FieldKind::Unsigned }),
{
    let mut fields: Vec<FieldDescriptor> = Vec::new();
    fields.push(FieldDescriptor { offset: 0, width: 8, kind: FieldKind::Unsigned });
    let r = RegisterDescriptor {
        address: 0x023b,
        size_bits: 8,
        access: Access::ReadWrite,
        byte_order: ByteOrder::BigEndian,
        reset_value: 0x00,
        fields,
    };
    proof {
        lemma_mask_values();
        assert(register_wf(r));
    }
    r
}

/// The `YaStData` register of bank 2, at in-bank offset 0x3c.
/// Fields, in declaration order: `value`.
pub fn ya_st_data() -> (r: RegisterDescriptor)
    ensures
        register_wf(r),
        r.address == 0x023c,
        r.size_bits == 8,
        r.access is ReadWrite,
        r.byte_order is BigEndian,
        r.reset_value == 0x00,
        r.fields@.len() == 1,
        r.fields@[0] == (FieldDescriptor { offset: 0, width: 8, kind: FieldKind::Unsigned }),
{
    let mut fields: Vec<FieldDescriptor> = Vec::new();
    fields.push(FieldDescriptor { offset: 0, width: 8, kind: FieldKind::Unsigned });
    let r = RegisterDescriptor {
        address: 0x023c,
        size_bits: 8,
        access: Access::ReadWrite,
        byte_order: ByteOrder::BigEndian,
        reset_value: 0x00,
        fields,
    };
    proof {
        lemma_mask_values();
        assert(register_wf(r));
    }
    r
}

/// The `ZaStData` register of bank 2, at in-bank offset 0x3d.
/// Fields, in declaration order: `value`.
pub fn za_st_data() -> (r: RegisterDescriptor)
    ensures
        register_wf(r),
        r.address == 0x023d,
        r.size_bits == 8,
        r.access is ReadWrite,
        r.byte_order is BigEndian,
        r.reset_value == 0x00,
        r.fields@.len() == 1,
        r.fields@[0] == (FieldDescriptor { offset: 0, width: 8, kind: FieldKind::Unsigned }),
{
    let mut fields: Vec<FieldDescriptor> = Vec::new();
    fields.push(FieldDescriptor { offset: 0, width: 8, kind: FieldKind::Unsigned });
    let r = RegisterDescriptor {
        address: 0x023d,
        size_bits: 8,
        access: Access::ReadWrite,
        byte_order: ByteOrder::BigEndian,
        reset_value: 0x00,
        fields,
    };
    proof {
        lemma_mask_values();
        assert(register_wf(r));
    }
    r
}

/// The `ApexConfig1` register of bank 4, at in-bank offset 0x40.
/// Fields, in declaration order: `low_energy_amp_th_sel`, `dmp_power_save_time_sel`.
pub fn apex_config1() -> (r: RegisterDescriptor)
    ensures
        register_wf(r),
        r.address == 0x0440,
        r.size_bits == 8,
        r.access is ReadWrite,
        r.byte_order is BigEndian,
        r.reset_value == 0xa2,
        r.fields@.len() == 2,
        r.fields@[0] == (FieldDescriptor { offset: 4, width: 4, kind: FieldKind::Unsigned }),
        r.fields@[1] == (FieldDescriptor { offset: 0, width: 4, kind: FieldKind::Unsigned }),
{
    let mut fields: Vec<FieldDescriptor> = Vec::new();
    fields.push(FieldDescriptor { offset: 4, width: 4, kind: FieldKind::Unsigned });
    fields.push(FieldDescriptor { offset: 0, width: 4, kind: FieldKind::Unsigned });
    let r = RegisterDescriptor {
        address: 0x0440,
        size_bits: 8,
        access: Access::ReadWrite,
        byte_order: ByteOrder::BigEndian,
        reset_value: 0xa2,
        fields,
    };
    proof {
        lemma_mask_values();
        assert(register_wf(r));
    }
    r
}

/// The `ApexConfig2` register of bank 4, at in-bank offset 0x41.
/// Fields, in declaration order: `ped_amp_th_sel`, `ped_step_cnt_th_sel`.
pub fn apex_config2() -> (r: RegisterDescriptor)
    ensures
        register_wf(r),
        r.address == 0x0441,
        r.size_bits == 8,
        r.access is ReadWrite,
        r.byte_order is BigEndian,
        r.reset_value == 0x85,
        r.fields@.len() == 2,
        r.fields@[0] == (FieldDescriptor { offset: 4, width: 4, kind: FieldKind::Unsigned }),
        r.fields@[1] == (FieldDescriptor { offset: 0, width: 4, kind: FieldKind::Unsigned }),
{
    let mut fields: Vec<FieldDescriptor> = Vec::new();
    fields.push(FieldDescriptor { offset: 4, width: 4, kind: FieldKind::Unsigned });
    fields.push(FieldDescriptor { offset: 0, width: 4, kind: FieldKind::Unsigned });
    let r = RegisterDescriptor {
        address: 0x0441,
        size_bits: 8,
        access: Access::ReadWrite,
        byte_order: ByteOrder::BigEndian,
        reset_value: 0x85,
        fields,
    };
    proof {
        lemma_mask_values();
        assert(register_wf(r));
    }
    r
}

/// The `ApexConfig3` register of bank 4, at in-bank offset 0x42.
/// Fields, in declaration order: `ped_step_det_th_sel`, `ped_sb_timer_th_sel`, `ped_hi_en_th_sel`.
pub fn apex_config3() -> (r: RegisterDescriptor)
    ensures
        register_wf(r),
        r.address == 0x0442,
        r.size_bits == 8,
        r.access is ReadWrite,
        r.byte_order is BigEndian,
        r.reset_value == 0x51,
        r.fields@.len() == 3,
        r.fields@[0] == (FieldDescriptor { offset: 5, width: 3, kind: FieldKind::Unsigned }),
        r.fields@[1] == (FieldDescriptor { offset: 2, width: 3, kind: FieldKind::Unsigned }),
        r.fields@[2] == (FieldDescriptor { offset: 0, width: 2, kind: FieldKind::Unsigned }),
{
    let mut fields: Vec<FieldDescriptor> = Vec::new();
    fields.push(FieldDescriptor { offset: 5, width: 3, kind: FieldKind::Unsigned });
    fields.push(FieldDescriptor { offset: 2, width: 3, kind: FieldKind::Unsigned });
    fields.push(FieldDescriptor { offset: 0, width: 2, kind: FieldKind::Unsigned });
    let r = RegisterDescriptor {
        address: 0x0442,
        size_bits: 8,
        access: Access::ReadWrite,
        byte_order: ByteOrder::BigEndian,
        reset_value: 0x51,
        fields,
    };
    proof {
        lemma_mask_values();
        assert(register_wf(r));
    }
    r
}

/// The `ApexConfig4` register of bank 4, at in-bank offset 0x43.
/// Fields, in declaration order: `tilt_wait_time_sel`, `sleep_time_out`.
pub fn apex_config4() -> (r: RegisterDescriptor)
    ensures
        register_wf(r),
        r.address == 0x0443,
        r.size_bits == 8,
        r.access is ReadWrite,
        r.byte_order is BigEndian,
        r.reset_value == 0xa4,
        r.fields@.len() == 2,
        r.fields@[0] == (FieldDescriptor { offset: 6, width: 2, kind: FieldKind::Unsigned }),
        r.fields@[1] == (FieldDescriptor { offset: 3, width: 3, kind: FieldKind::Unsigned }),
{
    let mut fields: Vec<FieldDescriptor> = Vec::new();
    fields.push(FieldDescriptor { offset: 6, width: 2, kind: FieldKind::Unsigned });
    fields.push(FieldDescriptor { offset: 3, width: 3, kind: FieldKind::Unsigned });
    let r = RegisterDescriptor {
        address: 0x0443,
        size_bits: 8,
        access: Access::ReadWrite,
        byte_order: ByteOrder::BigEndian,
        reset_value: 0xa4,
        fields,
    };
    proof {
        lemma_mask_values();
        assert(register_wf(r));
    }
    r
}

/// The `ApexConfig5` register of bank 4, at in-bank offset 0x44.
/// Fields, in declaration order: `mounting_matrix`.
pub fn apex_config5() -> (r: RegisterDescriptor)
    ensures
        register_wf(r),
        r.address == 0x0444,
        r.size_bits == 8,
        r.access is ReadWrite,
        r.byte_order is BigEndian,
        r.reset_value == 0x8c,
        r.fields@.len() == 1,
        r.fields@[0] == (FieldDescriptor { offset: 0, width: 3, kind: FieldKind::Unsigned }),
{
    let mut fields: Vec<FieldDescriptor> = Vec::new();
    fields.push(FieldDescriptor { offset: 0, width: 3, kind: FieldKind::Unsigned });
    let r = RegisterDescriptor {
        address: 0x0444,
        size_bits: 8,
        access: Access::ReadWrite,
        byte_order: ByteOrder::BigEndian,
        reset_value: 0x8c,
        fields,
    };
    proof {
        lemma_mask_values();
        assert(register_wf(r));
    }
    r
}

/// The `ApexConfig6` register of bank 4, at in-bank offset 0x45.
/// Fields, in declaration order: `sleep_gesture_delay`.
pub fn apex_config6() -> (r: RegisterDescriptor)
    ensures
        register_wf(r),
        r.address == 0x0445,
        r.size_bits == 8,
        r.access is ReadWrite,
        r.byte_order is BigEndian,
        r.reset_value == 0x5c,
        r.fields@.len() == 1,
        r.fields@[0] == (FieldDescriptor { offset: 0, width: 3, kind: FieldKind::Unsigned }),
{
    let mut fields: Vec<FieldDescriptor> = Vec::new();
    fields.push(FieldDescriptor { offset: 0, width: 3, kind: FieldKind::Unsigned });
    let r = RegisterDescriptor {
        address: 0x0445,
        size_bits: 8,
        access: Access::ReadWrite,
        byte_order: ByteOrder::BigEndian,
        reset_value: 0x5c,
        fields,
    };
    proof {
        lemma_mask_values();
        assert(register_wf(r));
    }
    r
}

/// The `ApexConfig7` register of bank 4, at in-bank offset 0x47.
/// Fields, in declaration order: `tap_tmax`, `tap_tavg`, `tap_tmin`.
pub fn apex_config7() -> (r: RegisterDescriptor)
    ensures
        register_wf(r),
        r.address == 0x0447,
        r.size_bits == 8,
        r.access is ReadWrite,
        r.byte_order is BigEndian,
        r.reset_value == 0x5b,
        r.fields@.len() == 3,
        r.fields@[0] == (FieldDescriptor { offset: 5, width: 2, kind: FieldKind::Unsigned }),
        r.fields@[1] == (FieldDescriptor { offset: 3, width: 2, kind: FieldKind::Unsigned }),
        r.fields@[2] == (FieldDescriptor { offset: 0, width: 3, kind: FieldKind::Unsigned }),
{
    let mut fields: Vec<FieldDescriptor> = Vec::new();
    fields.push(FieldDescriptor { offset: 5, width: 2, kind: FieldKind::Unsigned });
    fields.push(FieldDescriptor { offset: 3, width: 2, kind: FieldKind::Unsigned });
    fields.push(FieldDescriptor { offset: 0, width: 3, kind: FieldKind::Unsigned });
    let r = RegisterDescriptor {
        address: 0x0447,
        size_bits: 8,
        access: Access::ReadWrite,
        byte_order: ByteOrder::BigEndian,
        reset_value: 0x5b,
        fields,
    };
    proof {
        lemma_mask_values();
        assert(register_wf(r));
    }
    r
}

/// The `ApexConfig8` register of bank 4, at in-bank offset 0x48.
/// Fields, in declaration order: `sensitivity_mode`.
pub fn apex_config8() -> (r: RegisterDescriptor)
    ensures
        register_wf(r),
        r.address == 0x0448,
        r.size_bits == 8,
        r.access is ReadWrite,
        r.byte_order is BigEndian,
        r.reset_value == 0x00,
        r.fields@.len() == 1,
        r.fields@[0] == (FieldDescriptor { offset: 0, width: 1, kind: FieldKind::Boolean }),
{
    let mut fields: Vec<FieldDescriptor> = Vec::new();
    fields.push(FieldDescriptor { offset: 0, width: 1, kind: FieldKind::Boolean });
    let r = RegisterDescriptor {
        address: 0x0448,
        size_bits: 8,
        access: Access::ReadWrite,
        byte_order: ByteOrder::BigEndian,
        reset_value: 0x00,
        fields,
    };
    proof {
        lemma_mask_values();
        assert(register_wf(r));
    }
    r
}

/// The `AccelWomXThr` register of bank 4, at in-bank offset 0x4a.
/// Fields, in declaration order: `value`.
pub fn accel_wom_x_thr() -> (r: RegisterDescriptor)
    ensures
        register_wf(r),
        r.address == 0x044a,
        r.size_bits == 8,
        r.access is ReadWrite,
        r.byte_order is BigEndian,
        r.reset_value == 0x00,
        r.fields@.len() == 1,
        r.fields@[0] == (FieldDescriptor { offset: 0, width: 8, kind: FieldKind::Unsigned }),
{
    let mut fields: Vec<FieldDescriptor> = Vec::new();
    fields.push(FieldDescriptor { offset: 0, width: 8, kind: FieldKind::Unsigned });
    let r = RegisterDescriptor {
        address: 0x044a,
        size_bits: 8,
        access: Access::ReadWrite,
        byte_order: ByteOrder::BigEndian,
        reset_value: 0x00,
        fields,
    };
    proof {
        lemma_mask_values();
        assert(register_wf(r));
    }
    r
}

/// The `AccelWomYThr` register of bank 4, at in-bank offset 0x4b.
/// Fields, in declaration order: `value`.
pub fn accel_wom_y_thr() -> (r: RegisterDescriptor)
    ensures
        register_wf(r),
        r.address == 0x044b,
        r.size_bits == 8,
        r.access is ReadWrite,
        r.byte_order is BigEndian,
        r.reset_value == 0x00,
        r.fields@.len() == 1,
        r.fields@[0] == (FieldDescriptor { offset: 0, width: 8, kind: FieldKind::Unsigned }),
{
    let mut fields: Vec<FieldDescriptor> = Vec::new();
    fields.push(FieldDescriptor { offset: 0, width: 8, kind: FieldKind::Unsigned });
    let r = RegisterDescriptor {
        address: 0x044b,
        size_bits: 8,
        access: Access::ReadWrite,
        byte_order: ByteOrder::BigEndian,
        reset_value: 0x00,
        fields,
    };
    proof {
        lemma_mask_values();
        assert(register_wf(r));
    }
    r
}

/// The `AccelWomZThr` register of bank 4, at in-bank offset 0x4c.
/// Fields, in declaration order: `value`.
pub fn accel_wom_z_thr() -> (r: RegisterDescriptor)
    ensures
        register_wf(r),
        r.address == 0x044c,
        r.size_bits == 8,
        r.access is ReadWrite,
        r.byte_order is BigEndian,
        r.reset_value == 0x00,
        r.fields@.len() == 1,
        r.fields@[0] == (FieldDescriptor { offset: 0, width: 8, kind: FieldKind::Unsigned }),
{
    let mut fields: Vec<FieldDescriptor> = Vec::new();
    fields.push(FieldDescriptor { offset: 0, width: 8, kind: FieldKind::Unsigned });
    let r = RegisterDescriptor {
        address: 0x044c,
        size_bits: 8,
        access: Access::ReadWrite,
        byte_order: ByteOrder::BigEndian,
        reset_value: 0x00,
        fields,
    };
    proof {
        lemma_mask_values();
        assert(register_wf(r));
    }
    r
}

/// The `IntSource6` register of bank 4, at in-bank offset 0x4d.
/// Fields, in declaration order: `step_det_int1_en`, `step_cnt_ofl_int1_en`, `tilt_det_int1_en`, `wake_det_int1_en`, `sleep_det_int1_en`, `tap_det_int1_en`.
pub fn int_source6() -> (r: RegisterDescriptor)
    ensures
        register_wf(r),
        r.address == 0x044d,
        r.size_bits == 8,
        r.access is ReadWrite,
        r.byte_order is BigEndian,
        r.reset_value == 0x00,
        r.fields@.len() == 6,
        r.fields@[0] == (FieldDescriptor { offset: 5, width: 1, kind: FieldKind::Boolean }),
        r.fields@[1] == (FieldDescriptor { offset: 4, width: 1, kind: FieldKind::Boolean }),
        r.fields@[2] == (FieldDescriptor { offset: 3, width: 1, kind: FieldKind::Boolean }),
        r.fields@[3] == (FieldDescriptor { offset: 2, width: 1, kind: FieldKind::Boolean }),
        r.fields@[4] == (FieldDescriptor { offset: 1, width: 1, kind: FieldKind::Boolean }),
        r.fields@[5] == (FieldDescriptor { offset: 0, width: 1, kind: FieldKind::Boolean }),
{
    let mut fields: Vec<FieldDescriptor> = Vec::new();
    fields.push(FieldDescriptor { offset: 5, width: 1, kind: FieldKind::Boolean });
    fields.push(FieldDescriptor { offset: 4, width: 1, kind: FieldKind::Boolean });
    fields.push(FieldDescriptor { offset: 3, width: 1, kind: FieldKind::Boolean });
    fields.push(FieldDescriptor { offset: 2, width: 1, kind: FieldKind::Boolean });
    fields.push(FieldDescriptor { offset: 1, width: 1, kind: FieldKind::Boolean });
    fields.push(FieldDescriptor { offset: 0, width: 1, kind: FieldKind::Boolean });
    let r = RegisterDescriptor {
        address: 0x044d,
        size_bits: 8,
        access: Access::ReadWrite,
        byte_order: ByteOrder::BigEndian,
        reset_value: 0x00,
        fields,
    };
    proof {
        lemma_mask_values();
        assert(register_wf(r));
    }
    r
}

/// The `IntSource7` register of bank 4, at in-bank offset 0x4e.
/// Fields, in declaration order: `step_det_int2_en`, `step_cnt_ofl_int2_en`, `tilt_det_int2_en`, `wake_det_int2_en`, `sleep_det_int2_en`, `tap_det_int2_en`.
pub fn int_source7() -> (r: RegisterDescriptor)
    ensures
        register_wf(r),
        r.address == 0x044e,
        r.size_bits == 8,
        r.access is ReadWrite,
        r.byte_order is BigEndian,
        r.reset_value == 0x00,
        r.fields@.len() == 6,
        r.fields@[0] == (FieldDescriptor { offset: 5, width: 1, kind: FieldKind::Boolean }),
        r.fields@[1] == (FieldDescriptor { offset: 4, width: 1, kind: FieldKind::Boolean }),
        r.fields@[2] == (FieldDescriptor { offset: 3, width: 1, kind: FieldKind::Boolean }),
        r.fields@[3] == (FieldDescriptor { offset: 2, width: 1, kind: FieldKind::Boolean }),
        r.fields@[4] == (FieldDescriptor { offset: 1, width: 1, kind: FieldKind::Boolean }),
        r.fields@[5] == (FieldDescriptor { offset: 0, width: 1, kind: FieldKind::Boolean }),
{
    let mut fields: Vec<FieldDescriptor> = Vec::new();
    fields.push(FieldDescriptor { offset: 5, width: 1, kind: FieldKind::Boolean });
    fields.push(FieldDescriptor { offset: 4, width: 1, kind: FieldKind::Boolean });
    fields.push(FieldDescriptor { offset: 3, width: 1, kind: FieldKind::Boolean });
    fields.push(FieldDescriptor { offset: 2, width: 1, kind: FieldKind::Boolean });
    fields.push(FieldDescriptor { offset: 1, width: 1, kind: FieldKind::Boolean });
    fields.push(FieldDescriptor { offset: 0, width: 1, kind: FieldKind::Boolean });
    let r = RegisterDescriptor {
        address: 0x044e,
        size_bits: 8,
        access: Access::ReadWrite,
        byte_order: ByteOrder::BigEndian,
        reset_value: 0x00,
        fields,
    };
    proof {
        lemma_mask_values();
        assert(register_wf(r));
    }
    r
}

/// The `IntSource8` register of bank 4, at in-bank offset 0x4f.
/// Fields, in declaration order: `fsync_ibi_en`, `pll_rdy_ibi_en`, `reset_down_ibi_en`, `ui_drdy_ibi_en`, `fifo_ths_ibi_en`, `fifo_full_ibi_en`, `ui_agc_rdy_ibi_en`.
pub fn int_source8() -> (r: RegisterDescriptor)
    ensures
        register_wf(r),
        r.address == 0x044f,
        r.size_bits == 8,
        r.access is ReadWrite,
        r.byte_order is BigEndian,
        r.reset_value == 0x00,
        r.fields@.len() == 7,
        r.fields@[0] == (FieldDescriptor { offset: 6, width: 1, kind: FieldKind::Boolean }),
        r.fields@[1] == (FieldDescriptor { offset: 5, width: 1, kind: FieldKind::Boolean }),
        r.fields@[2] == (FieldDescriptor { offset: 4, width: 1, kind: FieldKind::Boolean }),
        r.fields@[3] == (FieldDescriptor { offset: 3, width: 1, kind: FieldKind::Boolean }),
        r.fields@[4] == (FieldDescriptor { offset: 2, width: 1, kind: FieldKind::Boolean }),
        r.fields@[5] == (FieldDescriptor { offset: 1, width: 1, kind: FieldKind::Boolean }),
        r.fields@[6] == (FieldDescriptor { offset: 0, width: 1, kind: FieldKind::Boolean }),
{
    let mut fields: Vec<FieldDescriptor> = Vec::new();
    fields.push(FieldDescriptor { offset: 6, width: 1, kind: FieldKind::Boolean });
    fields.push(FieldDescriptor { offset: 5, width: 1, kind: FieldKind::Boolean });
    fields.push(FieldDescriptor { offset: 4, width: 1, kind: FieldKind::Boolean });
    fields.push(FieldDescriptor { offset: 3, width: 1, kind: FieldKind::Boolean });
    fields.push(FieldDescriptor { offset: 2, width: 1, kind: FieldKind::Boolean });
    fields.push(FieldDescriptor { offset: 1, width: 1, kind: FieldKind::Boolean });
    fields.push(FieldDescriptor { offset: 0, width: 1, kind: FieldKind::Boolean });
    let r = RegisterDescriptor {
        address: 0x044f,
        size_bits: 8,
        access: Access::ReadWrite,
        byte_order: ByteOrder::BigEndian,
        reset_value: 0x00,
        fields,
    };
    proof {
        lemma_mask_values();
        assert(register_wf(r));
    }
    r
}

/// The `IntSource9` register of bank 4, at in-bank offset 0x50.
/// Fields, in declaration order: `i3c_protocol_error_ibi_en`, `smd_ibi_en`, `wom_z_ibi_en`, `wom_y_ibi_en`, `wom_x_ibi_en`.
pub fn int_source9() -> (r: RegisterDescriptor)
    ensures
        register_wf(r),
        r.address == 0x0450,
        r.size_bits == 8,
        r.access is ReadWrite,
        r.byte_order is BigEndian,
        r.reset_value == 0x00,
        r.fields@.len() == 5,
        r.fields@[0] == (FieldDescriptor { offset: 7, width: 1, kind: FieldKind::Boolean }),
        r.fields@[1] == (FieldDescriptor { offset: 4, width: 1, kind: FieldKind::Boolean }),
        r.fields@[2] == (FieldDescriptor { offset: 3, width: 1, kind: FieldKind::Boolean }),
        r.fields@[3] == (FieldDescriptor { offset: 2, width: 1, kind: FieldKind::Boolean }),
        r.fields@[4] == (FieldDescriptor { offset: 1, width: 1, kind: FieldKind::Boolean }),
{
    let mut fields: Vec<FieldDescriptor> = Vec::new();
    fields.push(FieldDescriptor { offset: 7, width: 1, kind: FieldKind::Boolean });
    fields.push(FieldDescriptor { offset: 4, width: 1, kind: FieldKind::Boolean });
    fields.push(FieldDescriptor { offset: 3, width: 1, kind: FieldKind::Boolean });
    fields.push(FieldDescriptor { offset: 2, width: 1, kind: FieldKind::Boolean });
    fields.push(FieldDescriptor { offset: 1, width: 1, kind: FieldKind::Boolean });
    let r = RegisterDescriptor {
        address: 0x0450,
        size_bits: 8,
        access: Access::ReadWrite,
        byte_order: ByteOrder::BigEndian,
        reset_value: 0x00,
        fields,
    };
    proof {
        lemma_mask_values();
        assert(register_wf(r));
    }
    r
}

/// The `IntSource10` register of bank 4, at in-bank offset 0x51.
/// Fields, in declaration order: `step_det_ibi_en`, `step_cnt_ofl_ibi_en`, `tilt_det_ibi_en`, `wake_det_ibi_en`, `sleep_det_ibi_en`, `tap_det_ibi_en`.
pub fn int_source10() -> (r: RegisterDescriptor)
    ensures
        register_wf(r),
        r.address == 0x0451,
        r.size_bits == 8,
        r.access is ReadWrite,
        r.byte_order is BigEndian,
        r.reset_value == 0x00,
        r.fields@.len() == 6,
        r.fields@[0] == (FieldDescriptor { offset: 5, width: 1, kind: FieldKind::Boolean }),
        r.fields@[1] == (FieldDescriptor { offset: 4, width: 1, kind: FieldKind::Boolean }),
        r.fields@[2] == (FieldDescriptor { offset: 3, width: 1, kind: FieldKind::Boolean }),
        r.fields@[3] == (FieldDescriptor { offset: 2, width: 1, kind: FieldKind::Boolean }),
        r.fields@[4] == (FieldDescriptor { offset: 1, width: 1, kind: FieldKind::Boolean }),
        r.fields@[5] == (FieldDescriptor { offset: 0, width: 1, kind: FieldKind::Boolean }),
{
    let mut fields: Vec<FieldDescriptor> = Vec::new();
    fields.push(FieldDescriptor { offset: 5, width: 1, kind: FieldKind::Boolean });
    fields.push(FieldDescriptor { offset: 4, width: 1, kind: FieldKind::Boolean });
    fields.push(FieldDescriptor { offset: 3, width: 1, kind: FieldKind::Boolean });
    fields.push(FieldDescriptor { offset: 2, width: 1, kind: FieldKind::Boolean });
    fields.push(FieldDescriptor { offset: 1, width: 1, kind: FieldKind::Boolean });
    fields.push(FieldDescriptor { offset: 0, width: 1, kind: FieldKind::Boolean });
    let r = RegisterDescriptor {
        address: 0x0451,
        size_bits: 8,
        access: Access::ReadWrite,
        byte_order: ByteOrder::BigEndian,
        reset_value: 0x00,
        fields,
    };
    proof {
        lemma_mask_values();
        assert(register_wf(r));
    }
    r
}

/// The `OffsetUser0` register of bank 4, at in-bank offset 0x77.
/// Fields, in declaration order: `gyro_x_offuser_lo`.
pub fn offset_user0() -> (r: RegisterDescriptor)
    ensures
        register_wf(r),
        r.address == 0x0477,
        r.size_bits == 8,
        r.access is ReadWrite,
        r.byte_order is BigEndian,
        r.reset_value == 0x00,
        r.fields@.len() == 1,
        r.fields@[0] == (FieldDescriptor { offset: 0, width: 8, kind: FieldKind::Unsigned }),
{
    let mut fields: Vec<FieldDescriptor> = Vec::new();
    fields.push(FieldDescriptor { offset: 0, width: 8, kind: FieldKind::Unsigned });
    let r = RegisterDescriptor {
        address: 0x0477,
        size_bits: 8,
        access: Access::ReadWrite,
        byte_order: ByteOrder::BigEndian,
        reset_value: 0x00,
        fields,
    };
    proof {
        lemma_mask_values();
        assert(register_wf(r));
    }
    r
}

/// The `OffsetUser1` register of bank 4, at in-bank offset 0x78.
/// Fields, in declaration order: `gyro_y_offuser_hi`, `gyro_x_offuser_hi`.
pub fn offset_user1() -> (r: RegisterDescriptor)
    ensures
        register_wf(r),
        r.address == 0x0478,
        r.size_bits == 8,
        r.access is ReadWrite,
        r.byte_order is BigEndian,
        r.reset_value == 0x00,
        r.fields@.len() == 2,
        r.fields@[0] == (FieldDescriptor { offset: 4, width: 4, kind: FieldKind::Unsigned }),
        r.fields@[1] == (FieldDescriptor { offset: 0, width: 4, kind: FieldKind::Unsigned }),
{
    let mut fields: Vec<FieldDescriptor> = Vec::new();
    fields.push(FieldDescriptor { offset: 4, width: 4, kind: FieldKind::Unsigned });
    fields.push(FieldDescriptor { offset: 0, width: 4, kind: FieldKind::Unsigned });
    let r = RegisterDescriptor {
        address: 0x0478,
        size_bits: 8,
        access: Access::ReadWrite,
        byte_order: ByteOrder::BigEndian,
        reset_value: 0x00,
        fields,
    };
    proof {
        lemma_mask_values();
        assert(register_wf(r));
    }
    r
}

/// The `OffsetUser2` register of bank 4, at in-bank offset 0x79.
/// Fields, in declaration order: `gyro_y_offuser_lo`.
pub fn offset_user2() -> (r: RegisterDescriptor)
    ensures
        register_wf(r),
        r.address == 0x0479,
        r.size_bits == 8,
        r.access is ReadWrite,
        r.byte_order is BigEndian,
        r.reset_value == 0x00,
        r.fields@.len() == 1,
        r.fields@[0] == (FieldDescriptor { offset: 0, width: 8, kind: FieldKind::Unsigned }),
{
    let mut fields: Vec<FieldDescriptor> = Vec::new();
    fields.push(FieldDescriptor { offset: 0, width: 8, kind: FieldKind::Unsigned });
    let r = RegisterDescriptor {
        address: 0x0479,
        size_bits: 8,
        access: Access::ReadWrite,
        byte_order: ByteOrder::BigEndian,
        reset_value: 0x00,
        fields,
    };
    proof {
        lemma_mask_values();
        assert(register_wf(r));
    }
    r
}

/// The `OffsetUser3` register of bank 4, at in-bank offset 0x7a.
/// Fields, in declaration order: `gyro_z_offuser_lo`.
pub fn offset_user3() -> (r: RegisterDescriptor)
    ensures
        register_wf(r),
        r.address == 0x047a,
        r.size_bits == 8,
        r.access is ReadWrite,
        r.byte_order is BigEndian,
        r.reset_value == 0x00,
        r.fields@.len() == 1,
        r.fields@[0] == (FieldDescriptor { offset: 0, width: 8, kind: FieldKind::Unsigned }),
{
    let mut fields: Vec<FieldDescriptor> = Vec::new();
    fields.push(FieldDescriptor { offset: 0, width: 8, kind: FieldKind::Unsigned });
    let r = RegisterDescriptor {
        address: 0x047a,
        size_bits: 8,
        access: Access::ReadWrite,
        byte_order: ByteOrder::BigEndian,
        reset_value: 0x00,
        fields,
    };
    proof {
        lemma_mask_values();
        assert(register_wf(r));
    }
    r
}

/// The `OffsetUser4` register of bank 4, at in-bank offset 0x7b.
/// Fields, in declaration order: `accel_x_offuser_hi`, `gyro_z_offuser_hi`.
pub fn offset_user4() -> (r: RegisterDescriptor)
    ensures
        register_wf(r),
        r.address == 0x047b,
        r.size_bits == 8,
        r.access is ReadWrite,
        r.byte_order is BigEndian,
        r.reset_value == 0x00,
        r.fields@.len() == 2,
        r.fields@[0] == (FieldDescriptor { offset: 4, width: 4, kind: FieldKind::Unsigned }),
        r.fields@[1] == (FieldDescriptor { offset: 0, width: 4, kind: FieldKind::Unsigned }),
{
    let mut fields: Vec<FieldDescriptor> = Vec::new();
    fields.push(FieldDescriptor { offset: 4, width: 4, kind: FieldKind::Unsigned });
    fields.push(FieldDescriptor { offset: 0, width: 4, kind: FieldKind::Unsigned });
    let r = RegisterDescriptor {
        address: 0x047b,
        size_bits: 8,
        access: Access::ReadWrite,
        byte_order: ByteOrder::BigEndian,
        reset_value: 0x00,
        fields,
    };
    proof {
        lemma_mask_values();
        assert(register_wf(r));
    }
    r
}

/// The `OffsetUser5` register of bank 4, at in-bank offset 0x7c.
/// Fields, in declaration order: `accel_x_offuser_lo`.
pub fn offset_user5() -> (r: RegisterDescriptor)
    ensures
        register_wf(r),
        r.address == 0x047c,
        r.size_bits == 8,
        r.access is ReadWrite,
        r.byte_order is BigEndian,
        r.reset_value == 0x00,
        r.fields@.len() == 1,
        r.fields@[0] == (FieldDescriptor { offset: 0, width: 8, kind: FieldKind::Unsigned }),
{
    let mut fields: Vec<FieldDescriptor> = Vec::new();
    fields.push(FieldDescriptor { offset: 0, width: 8, kind: FieldKind::Unsigned });
    let r = RegisterDescriptor {
        address: 0x047c,
        size_bits: 8,
        access: Access::ReadWrite,
        byte_order: ByteOrder::BigEndian,
        reset_value: 0x00,
        fields,
    };
    proof {
        lemma_mask_values();
        assert(register_wf(r));
    }
    r
}

/// The `OffsetUser6` register of bank 4, at in-bank offset 0x7d.
/// Fields, in declaration order: `accel_y_offuser_lo`.
pub fn offset_user6() -> (r: RegisterDescriptor)
    ensures
        register_wf(r),
        r.address == 0x047d,
        r.size_bits == 8,
        r.access is ReadWrite,
        r.byte_order is BigEndian,
        r.reset_value == 0x00,
        r.fields@.len() == 1,
        r.fields@[0] == (FieldDescriptor { offset: 0, width: 8, kind: FieldKind::Unsigned }),
{
    let mut fields: Vec<FieldDescriptor> = Vec::new();
    fields.push(FieldDescriptor { offset: 0, width: 8, kind: FieldKind::Unsigned });
    let r = RegisterDescriptor {
        address: 0x047d,
        size_bits: 8,
        access: Access::ReadWrite,
        byte_order: ByteOrder::BigEndian,
        reset_value: 0x00,
        fields,
    };
    proof {
        lemma_mask_values();
        assert(register_wf(r));
    }
    r
}

/// The `OffsetUser7` register of bank 4, at in-bank offset 0x7e.
/// Fields, in declaration order: `accel_z_offuser_hi`, `accel_y_offuser_hi`.
pub fn offset_user7() -> (r: RegisterDescriptor)
    ensures
        register_wf(r),
        r.address == 0x047e,
        r.size_bits == 8,
        r.access is ReadWrite,
        r.byte_order is BigEndian,
        r.reset_value == 0x00,
        r.fields@.len() == 2,
        r.fields@[0] == (FieldDescriptor { offset: 4, width: 4, kind: FieldKind::Unsigned }),
        r.fields@[1] == (FieldDescriptor { offset: 0, width: 4, kind: FieldKind::Unsigned }),
{
    let mut fields: Vec<FieldDescriptor> = Vec::new();
    fields.push(FieldDescriptor { offset: 4, width: 4, kind: FieldKind::Unsigned });
    fields.push(FieldDescriptor { offset: 0, width: 4, kind: FieldKind::Unsigned });
    let r = RegisterDescriptor {
        address: 0x047e,
        size_bits: 8,
        access: Access::ReadWrite,
        byte_order: ByteOrder::BigEndian,
        reset_value: 0x00,
        fields,
    };
    proof {
        lemma_mask_values();
        assert(register_wf(r));
    }
    r
}

/// The `OffsetUser8` register of bank 4, at in-bank offset 0x7f.
/// Fields, in declaration order: `accel_z_offuser_lo`.
pub fn offset_user8() -> (r: RegisterDescriptor)
    ensures
        register_wf(r),
        r.address == 0x047f,
        r.size_bits == 8,
        r.access is ReadWrite,
        r.byte_order is BigEndian,
        r.reset_value == 0x00,
        r.fields@.len() == 1,
        r.fields@[0] == (FieldDescriptor { offset: 0, width: 8, kind: FieldKind::Unsigned }),
{
    let mut fields: Vec<FieldDescriptor> = Vec::new();
    fields.push(FieldDescriptor { offset: 0, width: 8, kind: FieldKind::Unsigned });
    let r = RegisterDescriptor {
        address: 0x047f,
        size_bits: 8,
        access: Access::ReadWrite,
        byte_order: ByteOrder::BigEndian,
        reset_value: 0x00,
        fields,
    };
    proof {
        lemma_mask_values();
        assert(register_wf(r));
    }
    r
}

fn push_register(v: &mut Vec<RegisterDescriptor>, r: RegisterDescriptor)
    requires
        register_wf(r),
        forall|i: int| 0 <= i < old(v)@.len() ==> register_wf(#[trigger] old(v)@[i]),
    ensures
        final(v)@.len() == old(v)@.len() + 1,
        final(v)@[old(v)@.len() as int] == r,
        forall|i: int| 0 <= i < old(v)@.len() ==> #[trigger] final(v)@[i] == old(v)@[i],
        forall|i: int| 0 <= i < final(v)@.len() ==> register_wf(#[trigger] final(v)@[i]),
{
    v.push(r);
    proof {
        assert forall|i: int| 0 <= i < v@.len() implies register_wf(#[trigger] v@[i]) by {
            if i < v@.len() - 1 {
                assert(v@[i] == old(v)@[i]);
            }
        }
    }
}

/// The registers of bank 0, in declaration order. Each entry is well
/// formed, and each index holds exactly the register its constructor
/// describes.
#[verifier::rlimit(100)]
pub fn bank0_registers() -> (v: Vec<RegisterDescriptor>)
    ensures
        v@.len() == 46,
        forall|i: int| 0 <= i < v@.len() ==> register_wf(#[trigger] v@[i]),
        v@[0].address == 0x0011 && v@[0].size_bits == 8 && v@[0].access is ReadWrite
            && v@[0].byte_order is BigEndian && v@[0].reset_value == 0x00
            && v@[0].fields@.len() == 2,
        v@[1].address == 0x0013 && v@[1].size_bits == 8 && v@[1].access is ReadWrite
            && v@[1].byte_order is BigEndian && v@[1].reset_value == 0x05
            && v@[1].fields@.len() == 2,
        v@[2].address == 0x0014 && v@[2].size_bits == 8 && v@[2].access is ReadWrite
            && v@[2].byte_order is BigEndian && v@[2].reset_value == 0x00
            && v@[2].fields@.len() == 6,
        v@[3].address == 0x0016 && v@[3].size_bits == 8 && v@[3].access is ReadWrite
            && v@[3].byte_order is BigEndian && v@[3].reset_value == 0x00
            && v@[3].fields@.len() == 1,
        v@[4].address == 0x001d && v@[4].size_bits == 16 && v@[4].access is ReadOnly
            && v@[4].byte_order is BigEndian && v@[4].reset_value == 0x8000
            && v@[4].fields@.len() == 1,
        v@[5].address == 0x001f && v@[5].size_bits == 16 && v@[5].access is ReadOnly
            && v@[5].byte_order is BigEndian && v@[5].reset_value == 0x8000
            && v@[5].fields@.len() == 1,
        v@[6].address == 0x0021 && v@[6].size_bits == 16 && v@[6].access is ReadOnly
            && v@[6].byte_order is BigEndian && v@[6].reset_value == 0x8000
            && v@[6].fields@.len() == 1,
        v@[7].address == 0x0023 && v@[7].size_bits == 16 && v@[7].access is ReadOnly
            && v@[7].byte_order is BigEndian && v@[7].reset_value == 0x8000
            && v@[7].fields@.len() == 1,
        v@[8].address == 0x0025 && v@[8].size_bits == 16 && v@[8].access is ReadOnly
            && v@[8].byte_order is BigEndian && v@[8].reset_value == 0x8000
            && v@[8].fields@.len() == 1,
        v@[9].address == 0x0027 && v@[9].size_bits == 16 && v@[9].access is ReadOnly
            && v@[9].byte_order is BigEndian && v@[9].reset_value == 0x8000
            && v@[9].fields@.len() == 1,
        v@[10].address == 0x0029 && v@[10].size_bits == 16 && v@[10].access is ReadOnly
            && v@[10].byte_order is BigEndian && v@[10].reset_value == 0x8000
            && v@[10].fields@.len() == 1,
        v@[11].address == 0x002b && v@[11].size_bits == 16 && v@[11].access is ReadOnly
            && v@[11].byte_order is BigEndian && v@[11].reset_value == 0x00
            && v@[11].fields@.len() == 1,
        v@[12].address == 0x002d && v@[12].size_bits == 8 && v@[12].access is ReadOnly
            && v@[12].byte_order is BigEndian && v@[12].reset_value == 0x00
            && v@[12].fields@.len() == 7,
        v@[13].address == 0x002e && v@[13].size_bits == 16 && v@[13].access is ReadOnly
            && v@[13].byte_order is BigEndian && v@[13].reset_value == 0x00
            && v@[13].fields@.len() == 1,
        v@[14].address == 0x0030 && v@[14].size_bits == 8 && v@[14].access is ReadOnly
            && v@[14].byte_order is BigEndian && v@[14].reset_value == 0xff
            && v@[14].fields@.len() == 1,
        v@[15].address == 0x0031 && v@[15].size_bits == 16 && v@[15].access is ReadOnly
            && v@[15].byte_order is LittleEndian && v@[15].reset_value == 0x00
            && v@[15].fields@.len() == 1,
        v@[16].address == 0x0033 && v@[16].size_bits == 8 && v@[16].access is ReadOnly
            && v@[16].byte_order is BigEndian && v@[16].reset_value == 0x00
            && v@[16].fields@.len() == 1,
        v@[17].address == 0x0034 && v@[17].size_bits == 8 && v@[17].access is ReadOnly
            && v@[17].byte_order is BigEndian && v@[17].reset_value == 0x04
            && v@[17].fields@.len() == 2,
        v@[18].address == 0x0035 && v@[18].size_bits == 8 && v@[18].access is ReadOnly
            && v@[18].byte_order is BigEndian && v@[18].reset_value == 0x00
            && v@[18].fields@.len() == 3,
        v@[19].address == 0x0036 && v@[19].size_bits == 8 && v@[19].access is ReadOnly
            && v@[19].byte_order is BigEndian && v@[19].reset_value == 0x00
            && v@[19].fields@.len() == 1,
        v@[20].address == 0x0037 && v@[20].size_bits == 8 && v@[20].access is ReadOnly
            && v@[20].byte_order is BigEndian && v@[20].reset_value == 0x00
            && v@[20].fields@.len() == 4,
        v@[21].address == 0x0038 && v@[21].size_bits == 8 && v@[21].access is ReadOnly
            && v@[21].byte_order is BigEndian && v@[21].reset_value == 0x00
            && v@[21].fields@.len() == 6,
        v@[22].address == 0x004b && v@[22].size_bits == 8 && v@[22].access is WriteOnly
            && v@[22].byte_order is BigEndian && v@[22].reset_value == 0x00
            && v@[22].fields@.len() == 5,
        v@[23].address == 0x004c && v@[23].size_bits == 8 && v@[23].access is ReadWrite
            && v@[23].byte_order is BigEndian && v@[23].reset_value == 0x30
            && v@[23].fields@.len() == 5,
        v@[24].address == 0x004d && v@[24].size_bits == 8 && v@[24].access is ReadWrite
            && v@[24].byte_order is BigEndian && v@[24].reset_value == 0x91
            && v@[24].fields@.len() == 2,
        v@[25].address == 0x004e && v@[25].size_bits == 8 && v@[25].access is ReadWrite
            && v@[25].byte_order is BigEndian && v@[25].reset_value == 0x00
            && v@[25].fields@.len() == 4,
        v@[26].address == 0x004f && v@[26].size_bits == 8 && v@[26].access is ReadWrite
            && v@[26].byte_order is BigEndian && v@[26].reset_value == 0x06
            && v@[26].fields@.len() == 2,
        v@[27].address == 0x0050 && v@[27].size_bits == 8 && v@[27].access is ReadWrite
            && v@[27].byte_order is BigEndian && v@[27].reset_value == 0x06
            && v@[27].fields@.len() == 2,
        v@[28].address == 0x0051 && v@[28].size_bits == 8 && v@[28].access is ReadWrite
            && v@[28].byte_order is BigEndian && v@[28].reset_value == 0x16
            && v@[28].fields@.len() == 3,
        v@[29].address == 0x0052 && v@[29].size_bits == 8 && v@[29].access is ReadWrite
            && v@[29].byte_order is BigEndian && v@[29].reset_value == 0x11
            && v@[29].fields@.len() == 2,
        v@[30].address == 0x0053 && v@[30].size_bits == 8 && v@[30].access is ReadWrite
            && v@[30].byte_order is BigEndian && v@[30].reset_value == 0x0d
            && v@[30].fields@.len() == 2,
        v@[31].address == 0x0054 && v@[31].size_bits == 8 && v@[31].access is ReadWrite
            && v@[31].byte_order is BigEndian && v@[31].reset_value == 0x23
            && v@[31].fields@.len() == 5,
        v@[32].address == 0x0056 && v@[32].size_bits == 8 && v@[32].access is ReadWrite
            && v@[32].byte_order is BigEndian && v@[32].reset_value == 0x82
            && v@[32].fields@.len() == 6,
        v@[33].address == 0x0057 && v@[33].size_bits == 8 && v@[33].access is ReadWrite
            && v@[33].byte_order is BigEndian && v@[33].reset_value == 0x00
            && v@[33].fields@.len() == 3,
        v@[34].address == 0x005f && v@[34].size_bits == 8 && v@[34].access is ReadWrite
            && v@[34].byte_order is BigEndian && v@[34].reset_value == 0x00
            && v@[34].fields@.len() == 6,
        v@[35].address == 0x0060 && v@[35].size_bits == 16 && v@[35].access is ReadWrite
            && v@[35].byte_order is LittleEndian && v@[35].reset_value == 0x00
            && v@[35].fields@.len() == 1,
        v@[36].address == 0x0062 && v@[36].size_bits == 8 && v@[36].access is ReadWrite
            && v@[36].byte_order is BigEndian && v@[36].reset_value == 0x10
            && v@[36].fields@.len() == 3,
        v@[37].address == 0x0063 && v@[37].size_bits == 8 && v@[37].access is ReadWrite
            && v@[37].byte_order is BigEndian && v@[37].reset_value == 0x00
            && v@[37].fields@.len() == 3,
        v@[38].address == 0x0064 && v@[38].size_bits == 8 && v@[38].access is ReadWrite
            && v@[38].byte_order is BigEndian && v@[38].reset_value == 0x10
            && v@[38].fields@.len() == 3,
        v@[39].address == 0x0065 && v@[39].size_bits == 8 && v@[39].access is ReadWrite
            && v@[39].byte_order is BigEndian && v@[39].reset_value == 0x10
            && v@[39].fields@.len() == 7,
        v@[40].address == 0x0066 && v@[40].size_bits == 8 && v@[40].access is ReadWrite
            && v@[40].byte_order is BigEndian && v@[40].reset_value == 0x00
            && v@[40].fields@.len() == 5,
        v@[41].address == 0x0068 && v@[41].size_bits == 8 && v@[41].access is ReadWrite
            && v@[41].byte_order is BigEndian && v@[41].reset_value == 0x00
            && v@[41].fields@.len() == 7,
        v@[42].address == 0x0069 && v@[42].size_bits == 8 && v@[42].access is ReadWrite
            && v@[42].byte_order is BigEndian && v@[42].reset_value == 0x00
            && v@[42].fields@.len() == 5,
        v@[43].address == 0x006c && v@[43].size_bits == 16 && v@[43].access is ReadOnly
            && v@[43].byte_order is LittleEndian && v@[43].reset_value == 0x00
            && v@[43].fields@.len() == 1,
        v@[44].address == 0x0070 && v@[44].size_bits == 8 && v@[44].access is ReadWrite
            && v@[44].byte_order is BigEndian && v@[44].reset_value == 0x00
            && v@[44].fields@.len() == 7,
        v@[45].address == 0x0075 && v@[45].size_bits == 8 && v@[45].access is ReadOnly
            && v@[45].byte_order is BigEndian && v@[45].reset_value == 0x00
            && v@[45].fields@.len() == 1,
{
    let mut v: Vec<RegisterDescriptor> = Vec::new();
    push_register(&mut v, device_config());
    push_register(&mut v, drive_config());
    push_register(&mut v, int_config());
    push_register(&mut v, fifo_config());
    push_register(&mut v, temp_data());
    push_register(&mut v, accel_data_x());
    push_register(&mut v, accel_data_y());
    push_register(&mut v, accel_data_z());
    push_register(&mut v, gyro_data_x());
    push_register(&mut v, gyro_data_y());
    push_register(&mut v, gyro_data_z());
    push_register(&mut v, timestamp_fsync());
    push_register(&mut v, int_status());
    push_register(&mut v, fifo_count());
    push_register(&mut v, fifo_data());
    push_register(&mut v, step_count());
    push_register(&mut v, step_cadence());
    push_register(&mut v, apex_status());
    push_register(&mut v, tap_status());
    push_register(&mut v, double_tap_timing());
    push_register(&mut v, int_status2());
    push_register(&mut v, int_status3());
    push_register(&mut v, signal_path_reset());
    push_register(&mut v, intf_config0());
    push_register(&mut v, intf_config1());
    push_register(&mut v, pwr_mgmt());
    push_register(&mut v, gyro_config0());
    push_register(&mut v, accel_config0());
    push_register(&mut v, gyro_config1());
    push_register(&mut v, gyro_accel_config());
    push_register(&mut v, accel_config1());
    push_register(&mut v, tmst_config());
    push_register(&mut v, apex_config());
    push_register(&mut v, smd_config());
    push_register(&mut v, fifo_config1());
    push_register(&mut v, fifo_watermark());
    push_register(&mut v, fsync_config());
    push_register(&mut v, int_config0());
    push_register(&mut v, int_config1());
    push_register(&mut v, int_source0());
    push_register(&mut v, int_source1());
    push_register(&mut v, int_source3());
    push_register(&mut v, int_source4());
    push_register(&mut v, fifo_lost_pkt());
    push_register(&mut v, self_test_config());
    push_register(&mut v, who_am_i());
    v
}

/// The registers of bank 1, in declaration order. Each entry is well
/// formed, and each index holds exactly the register its constructor
/// describes.
#[verifier::rlimit(100)]
pub fn bank1_registers() -> (v: Vec<RegisterDescriptor>)
    ensures
        v@.len() == 15,
        forall|i: int| 0 <= i < v@.len() ==> register_wf(#[trigger] v@[i]),
        v@[0].address == 0x0103 && v@[0].size_bits == 8 && v@[0].access is ReadWrite
            && v@[0].byte_order is BigEndian && v@[0].reset_value == 0x00
            && v@[0].fields@.len() == 6,
        v@[1].address == 0x010b && v@[1].size_bits == 8 && v@[1].access is ReadWrite
            && v@[1].byte_order is BigEndian && v@[1].reset_value == 0xa8
            && v@[1].fields@.len() == 2,
        v@[2].address == 0x010c && v@[2].size_bits == 24 && v@[2].access is ReadWrite
            && v@[2].byte_order is LittleEndian && v@[2].reset_value == 0x3f
            && v@[2].fields@.len() == 3,
        v@[3].address == 0x010f && v@[3].size_bits == 8 && v@[3].access is ReadWrite
            && v@[3].byte_order is BigEndian && v@[3].reset_value == 0x00
            && v@[3].fields@.len() == 1,
        v@[4].address == 0x0110 && v@[4].size_bits == 8 && v@[4].access is ReadWrite
            && v@[4].byte_order is BigEndian && v@[4].reset_value == 0x00
            && v@[4].fields@.len() == 1,
        v@[5].address == 0x0111 && v@[5].size_bits == 8 && v@[5].access is ReadWrite
            && v@[5].byte_order is BigEndian && v@[5].reset_value == 0x00
            && v@[5].fields@.len() == 1,
        v@[6].address == 0x0112 && v@[6].size_bits == 8 && v@[6].access is ReadWrite
            && v@[6].byte_order is BigEndian && v@[6].reset_value == 0x00
            && v@[6].fields@.len() == 6,
        v@[7].address == 0x0113 && v@[7].size_bits == 8 && v@[7].access is ReadWrite
            && v@[7].byte_order is BigEndian && v@[7].reset_value == 0x11
            && v@[7].fields@.len() == 1,
        v@[8].address == 0x015f && v@[8].size_bits == 8 && v@[8].access is ReadWrite
            && v@[8].byte_order is BigEndian && v@[8].reset_value == 0x00
            && v@[8].fields@.len() == 1,
        v@[9].address == 0x0160 && v@[9].size_bits == 8 && v@[9].access is ReadWrite
            && v@[9].byte_order is BigEndian && v@[9].reset_value == 0x00
            && v@[9].fields@.len() == 1,
        v@[10].address == 0x0161 && v@[10].size_bits == 8 && v@[10].access is ReadWrite
            && v@[10].byte_order is BigEndian && v@[10].reset_value == 0x00
            && v@[10].fields@.len() == 1,
        v@[11].address == 0x0162 && v@[11].size_bits == 24 && v@[11].access is ReadWrite
            && v@[11].byte_order is LittleEndian && v@[11].reset_value == 0x00
            && v@[11].fields@.len() == 1,
        v@[12].address == 0x017a && v@[12].size_bits == 8 && v@[12].access is ReadWrite
            && v@[12].byte_order is BigEndian && v@[12].reset_value == 0x03
            && v@[12].fields@.len() == 2,
        v@[13].address == 0x017b && v@[13].size_bits == 8 && v@[13].access is ReadWrite
            && v@[13].byte_order is BigEndian && v@[13].reset_value == 0x20
            && v@[13].fields@.len() == 1,
        v@[14].address == 0x017c && v@[14].size_bits == 8 && v@[14].access is ReadWrite
            && v@[14].byte_order is BigEndian && v@[14].reset_value == 0x5f
            && v@[14].fields@.len() == 6,
{
    let mut v: Vec<RegisterDescriptor> = Vec::new();
    push_register(&mut v, sensor_config());
    push_register(&mut v, gyro_config_static2());
    push_register(&mut v, gyro_anti_alias_filter_config());
    push_register(&mut v, gyro_x_nf_coswz());
    push_register(&mut v, gyro_y_nf_coswz());
    push_register(&mut v, gyro_z_nf_coswz());
    push_register(&mut v, gyro_config_static9());
    push_register(&mut v, gyro_config_static10());
    push_register(&mut v, xg_st_data());
    push_register(&mut v, yg_st_data());
    push_register(&mut v, zg_st_data());
    push_register(&mut v, tmst_val());
    push_register(&mut v, intf_config4());
    push_register(&mut v, intf_config5());
    push_register(&mut v, intf_config6());
    v
}

/// The registers of bank 2, in declaration order. Each entry is well
/// formed, and each index holds exactly the register its constructor
/// describes.
#[verifier::rlimit(100)]
pub fn bank2_registers() -> (v: Vec<RegisterDescriptor>)
    ensures
        v@.len() == 4,
        forall|i: int| 0 <= i < v@.len() ==> register_wf(#[trigger] v@[i]),
        v@[0].address == 0x020c && v@[0].size_bits == 24 && v@[0].access is ReadWrite
            && v@[0].byte_order is LittleEndian && v@[0].reset_value == 0x3f
            && v@[0].fields@.len() == 4,
        v@[1].address == 0x023b && v@[1].size_bits == 8 && v@[1].access is ReadWrite
            && v@[1].byte_order is BigEndian && v@[1].reset_value == 0x00
            && v@[1].fields@.len() == 1,
        v@[2].address == 0x023c && v@[2].size_bits == 8 && v@[2].access is ReadWrite
            && v@[2].byte_order is BigEndian && v@[2].reset_value == 0x00
            && v@[2].fields@.len() == 1,
        v@[3].address == 0x023d && v@[3].size_bits == 8 && v@[3].access is ReadWrite
            && v@[3].byte_order is BigEndian && v@[3].reset_value == 0x00
            && v@[3].fields@.len() == 1,
{
    let mut v: Vec<RegisterDescriptor> = Vec::new();
    push_register(&mut v, accel_anti_alias_filter_config());
    push_register(&mut v, xa_st_data());
    push_register(&mut v, ya_st_data());
    push_register(&mut v, za_st_data());
    v
}

/// The registers of bank 4, in declaration order. Each entry is well
/// formed, and each index holds exactly the register its constructor
/// describes.
#[verifier::rlimit(100)]
pub fn bank4_registers() -> (v: Vec<RegisterDescriptor>)
    ensures
        v@.len() == 25,
        forall|i: int| 0 <= i < v@.len() ==> register_wf(#[trigger] v@[i]),
        v@[0].address == 0x0440 && v@[0].size_bits == 8 && v@[0].access is ReadWrite
            && v@[0].byte_order is BigEndian && v@[0].reset_value == 0xa2
            && v@[0].fields@.len() == 2,
        v@[1].address == 0x0441 && v@[1].size_bits == 8 && v@[1].access is ReadWrite
            && v@[1].byte_order is BigEndian && v@[1].reset_value == 0x85
            && v@[1].fields@.len() == 2,
        v@[2].address == 0x0442 && v@[2].size_bits == 8 && v@[2].access is ReadWrite
            && v@[2].byte_order is BigEndian && v@[2].reset_value == 0x51
            && v@[2].fields@.len() == 3,
        v@[3].address == 0x0443 && v@[3].size_bits == 8 && v@[3].access is ReadWrite
            && v@[3].byte_order is BigEndian && v@[3].reset_value == 0xa4
            && v@[3].fields@.len() == 2,
        v@[4].address == 0x0444 && v@[4].size_bits == 8 && v@[4].access is ReadWrite
            && v@[4].byte_order is BigEndian && v@[4].reset_value == 0x8c
            && v@[4].fields@.len() == 1,
        v@[5].address == 0x0445 && v@[5].size_bits == 8 && v@[5].access is ReadWrite
            && v@[5].byte_order is BigEndian && v@[5].reset_value == 0x5c
            && v@[5].fields@.len() == 1,
        v@[6].address == 0x0447 && v@[6].size_bits == 8 && v@[6].access is ReadWrite
            && v@[6].byte_order is BigEndian && v@[6].reset_value == 0x5b
            && v@[6].fields@.len() == 3,
        v@[7].address == 0x0448 && v@[7].size_bits == 8 && v@[7].access is ReadWrite
            && v@[7].byte_order is BigEndian && v@[7].reset_value == 0x00
            && v@[7].fields@.len() == 1,
        v@[8].address == 0x044a && v@[8].size_bits == 8 && v@[8].access is ReadWrite
            && v@[8].byte_order is BigEndian && v@[8].reset_value == 0x00
            && v@[8].fields@.len() == 1,
        v@[9].address == 0x044b && v@[9].size_bits == 8 && v@[9].access is ReadWrite
            && v@[9].byte_order is BigEndian && v@[9].reset_value == 0x00
            && v@[9].fields@.len() == 1,
        v@[10].address == 0x044c && v@[10].size_bits == 8 && v@[10].access is ReadWrite
            && v@[10].byte_order is BigEndian && v@[10].reset_value == 0x00
            && v@[10].fields@.len() == 1,
        v@[11].address == 0x044d && v@[11].size_bits == 8 && v@[11].access is ReadWrite
            && v@[11].byte_order is BigEndian && v@[11].reset_value == 0x00
            && v@[11].fields@.len() == 6,
        v@[12].address == 0x044e && v@[12].size_bits == 8 && v@[12].access is ReadWrite
            && v@[12].byte_order is BigEndian && v@[12].reset_value == 0x00
            && v@[12].fields@.len() == 6,
        v@[13].address == 0x044f && v@[13].size_bits == 8 && v@[13].access is ReadWrite
            && v@[13].byte_order is BigEndian && v@[13].reset_value == 0x00
            && v@[13].fields@.len() == 7,
        v@[14].address == 0x0450 && v@[14].size_bits == 8 && v@[14].access is ReadWrite
            && v@[14].byte_order is BigEndian && v@[14].reset_value == 0x00
            && v@[14].fields@.len() == 5,
        v@[15].address == 0x0451 && v@[15].size_bits == 8 && v@[15].access is ReadWrite
            && v@[15].byte_order is BigEndian && v@[15].reset_value == 0x00
            && v@[15].fields@.len() == 6,
        v@[16].address == 0x0477 && v@[16].size_bits == 8 && v@[16].access is ReadWrite
            && v@[16].byte_order is BigEndian && v@[16].reset_value == 0x00
            && v@[16].fields@.len() == 1,
        v@[17].address == 0x0478 && v@[17].size_bits == 8 && v@[17].access is ReadWrite
            && v@[17].byte_order is BigEndian && v@[17].reset_value == 0x00
            && v@[17].fields@.len() == 2,
        v@[18].address == 0x0479 && v@[18].size_bits == 8 && v@[18].access is ReadWrite
            && v@[18].byte_order is BigEndian && v@[18].reset_value == 0x00
            && v@[18].fields@.len() == 1,
        v@[19].address == 0x047a && v@[19].size_bits == 8 && v@[19].access is ReadWrite
            && v@[19].byte_order is BigEndian && v@[19].reset_value == 0x00
            && v@[19].fields@.len() == 1,
        v@[20].address == 0x047b && v@[20].size_bits == 8 && v@[20].access is ReadWrite
            && v@[20].byte_order is BigEndian && v@[20].reset_value == 0x00
            && v@[20].fields@.len() == 2,
        v@[21].address == 0x047c && v@[21].size_bits == 8 && v@[21].access is ReadWrite
            && v@[21].byte_order is BigEndian && v@[21].reset_value == 0x00
            && v@[21].fields@.len() == 1,
        v@[22].address == 0x047d && v@[22].size_bits == 8 && v@[22].access is ReadWrite
            && v@[22].byte_order is BigEndian && v@[22].reset_value == 0x00
            && v@[22].fields@.len() == 1,
        v@[23].address == 0x047e && v@[23].size_bits == 8 && v@[23].access is ReadWrite
            && v@[23].byte_order is BigEndian && v@[23].reset_value == 0x00
            && v@[23].fields@.len() == 2,
        v@[24].address == 0x047f && v@[24].size_bits == 8 && v@[24].access is ReadWrite
            && v@[24].byte_order is BigEndian && v@[24].reset_value == 0x00
            && v@[24].fields@.len() == 1,
{
    let mut v: Vec<RegisterDescriptor> = Vec::new();
    push_register(&mut v, apex_config1());
    push_register(&mut v, apex_config2());
    push_register(&mut v, apex_config3());
    push_register(&mut v, apex_config4());
    push_register(&mut v, apex_config5());
    push_register(&mut v, apex_config6());
    push_register(&mut v, apex_config7());
    push_register(&mut v, apex_config8());
    push_register(&mut v, accel_wom_x_thr());
    push_register(&mut v, accel_wom_y_thr());
    push_register(&mut v, accel_wom_z_thr());
    push_register(&mut v, int_source6());
    push_register(&mut v, int_source7());
    push_register(&mut v, int_source8());
    push_register(&mut v, int_source9());
    push_register(&mut v, int_source10());
    push_register(&mut v, offset_user0());
    push_register(&mut v, offset_user1());
    push_register(&mut v, offset_user2());
    push_register(&mut v, offset_user3());
    push_register(&mut v, offset_user4());
    push_register(&mut v, offset_user5());
    push_register(&mut v, offset_user6());
    push_register(&mut v, offset_user7());
    push_register(&mut v, offset_user8());
    v
}

/// Every register of the map: the bank tables in order (banks 0, 1, 2, 4).
#[verifier::rlimit(100)]
pub fn all_registers() -> (v: Vec<RegisterDescriptor>)
    ensures
        v@.len() == 90,
        forall|i: int| 0 <= i < v@.len() ==> register_wf(#[trigger] v@[i]),
        v@[0].address == 0x0011 && v@[0].size_bits == 8 && v@[0].access is ReadWrite
            && v@[0].byte_order is BigEndian && v@[0].reset_value == 0x00
            && v@[0].fields@.len() == 2,
        v@[1].address == 0x0013 && v@[1].size_bits == 8 && v@[1].access is ReadWrite
            && v@[1].byte_order is BigEndian && v@[1].reset_value == 0x05
            && v@[1].fields@.len() == 2,
        v@[2].address == 0x0014 && v@[2].size_bits == 8 && v@[2].access is ReadWrite
            && v@[2].byte_order is BigEndian && v@[2].reset_value == 0x00
            && v@[2].fields@.len() == 6,
        v@[3].address == 0x0016 && v@[3].size_bits == 8 && v@[3].access is ReadWrite
            && v@[3].byte_order is BigEndian && v@[3].reset_value == 0x00
            && v@[3].fields@.len() == 1,
        v@[4].address == 0x001d && v@[4].size_bits == 16 && v@[4].access is ReadOnly
            && v@[4].byte_order is BigEndian && v@[4].reset_value == 0x8000
            && v@[4].fields@.len() == 1,
        v@[5].address == 0x001f && v@[5].size_bits == 16 && v@[5].access is ReadOnly
            && v@[5].byte_order is BigEndian && v@[5].reset_value == 0x8000
            && v@[5].fields@.len() == 1,
        v@[6].address == 0x0021 && v@[6].size_bits == 16 && v@[6].access is ReadOnly
            && v@[6].byte_order is BigEndian && v@[6].reset_value == 0x8000
            && v@[6].fields@.len() == 1,
        v@[7].address == 0x0023 && v@[7].size_bits == 16 && v@[7].access is ReadOnly
            && v@[7].byte_order is BigEndian && v@[7].reset_value == 0x8000
            && v@[7].fields@.len() == 1,
        v@[8].address == 0x0025 && v@[8].size_bits == 16 && v@[8].access is ReadOnly
            && v@[8].byte_order is BigEndian && v@[8].reset_value == 0x8000
            && v@[8].fields@.len() == 1,
        v@[9].address == 0x0027 && v@[9].size_bits == 16 && v@[9].access is ReadOnly
            && v@[9].byte_order is BigEndian && v@[9].reset_value == 0x8000
            && v@[9].fields@.len() == 1,
        v@[10].address == 0x0029 && v@[10].size_bits == 16 && v@[10].access is ReadOnly
            && v@[10].byte_order is BigEndian && v@[10].reset_value == 0x8000
            && v@[10].fields@.len() == 1,
        v@[11].address == 0x002b && v@[11].size_bits == 16 && v@[11].access is ReadOnly
            && v@[11].byte_order is BigEndian && v@[11].reset_value == 0x00
            && v@[11].fields@.len() == 1,
        v@[12].address == 0x002d && v@[12].size_bits == 8 && v@[12].access is ReadOnly
            && v@[12].byte_order is BigEndian && v@[12].reset_value == 0x00
            && v@[12].fields@.len() == 7,
        v@[13].address == 0x002e && v@[13].size_bits == 16 && v@[13].access is ReadOnly
            && v@[13].byte_order is BigEndian && v@[13].reset_value == 0x00
            && v@[13].fields@.len() == 1,
        v@[14].address == 0x0030 && v@[14].size_bits == 8 && v@[14].access is ReadOnly
            && v@[14].byte_order is BigEndian && v@[14].reset_value == 0xff
            && v@[14].fields@.len() == 1,
        v@[15].address == 0x0031 && v@[15].size_bits == 16 && v@[15].access is ReadOnly
            && v@[15].byte_order is LittleEndian && v@[15].reset_value == 0x00
            && v@[15].fields@.len() == 1,
        v@[16].address == 0x0033 && v@[16].size_bits == 8 && v@[16].access is ReadOnly
            && v@[16].byte_order is BigEndian && v@[16].reset_value == 0x00
            && v@[16].fields@.len() == 1,
        v@[17].address == 0x0034 && v@[17].size_bits == 8 && v@[17].access is ReadOnly
            && v@[17].byte_order is BigEndian && v@[17].reset_value == 0x04
            && v@[17].fields@.len() == 2,
        v@[18].address == 0x0035 && v@[18].size_bits == 8 && v@[18].access is ReadOnly
            && v@[18].byte_order is BigEndian && v@[18].reset_value == 0x00
            && v@[18].fields@.len() == 3,
        v@[19].address == 0x0036 && v@[19].size_bits == 8 && v@[19].access is ReadOnly
            && v@[19].byte_order is BigEndian && v@[19].reset_value == 0x00
            && v@[19].fields@.len() == 1,
        v@[20].address == 0x0037 && v@[20].size_bits == 8 && v@[20].access is ReadOnly
            && v@[20].byte_order is BigEndian && v@[20].reset_value == 0x00
            && v@[20].fields@.len() == 4,
        v@[21].address == 0x0038 && v@[21].size_bits == 8 && v@[21].access is ReadOnly
            && v@[21].byte_order is BigEndian && v@[21].reset_value == 0x00
            && v@[21].fields@.len() == 6,
        v@[22].address == 0x004b && v@[22].size_bits == 8 && v@[22].access is WriteOnly
            && v@[22].byte_order is BigEndian && v@[22].reset_value == 0x00
            && v@[22].fields@.len() == 5,
        v@[23].address == 0x004c && v@[23].size_bits == 8 && v@[23].access is ReadWrite
            && v@[23].byte_order is BigEndian && v@[23].reset_value == 0x30
            && v@[23].fields@.len() == 5,
        v@[24].address == 0x004d && v@[24].size_bits == 8 && v@[24].access is ReadWrite
            && v@[24].byte_order is BigEndian && v@[24].reset_value == 0x91
            && v@[24].fields@.len() == 2,
        v@[25].address == 0x004e && v@[25].size_bits == 8 && v@[25].access is ReadWrite
            && v@[25].byte_order is BigEndian && v@[25].reset_value == 0x00
            && v@[25].fields@.len() == 4,
        v@[26].address == 0x004f && v@[26].size_bits == 8 && v@[26].access is ReadWrite
            && v@[26].byte_order is BigEndian && v@[26].reset_value == 0x06
            && v@[26].fields@.len() == 2,
        v@[27].address == 0x0050 && v@[27].size_bits == 8 && v@[27].access is ReadWrite
            && v@[27].byte_order is BigEndian && v@[27].reset_value == 0x06
            && v@[27].fields@.len() == 2,
        v@[28].address == 0x0051 && v@[28].size_bits == 8 && v@[28].access is ReadWrite
            && v@[28].byte_order is BigEndian && v@[28].reset_value == 0x16
            && v@[28].fields@.len() == 3,
        v@[29].address == 0x0052 && v@[29].size_bits == 8 && v@[29].access is ReadWrite
            && v@[29].byte_order is BigEndian && v@[29].reset_value == 0x11
            && v@[29].fields@.len() == 2,
        v@[30].address == 0x0053 && v@[30].size_bits == 8 && v@[30].access is ReadWrite
            && v@[30].byte_order is BigEndian && v@[30].reset_value == 0x0d
            && v@[30].fields@.len() == 2,
        v@[31].address == 0x0054 && v@[31].size_bits == 8 && v@[31].access is ReadWrite
            && v@[31].byte_order is BigEndian && v@[31].reset_value == 0x23
            && v@[31].fields@.len() == 5,
        v@[32].address == 0x0056 && v@[32].size_bits == 8 && v@[32].access is ReadWrite
            && v@[32].byte_order is BigEndian && v@[32].reset_value == 0x82
            && v@[32].fields@.len() == 6,
        v@[33].address == 0x0057 && v@[33].size_bits == 8 && v@[33].access is ReadWrite
            && v@[33].byte_order is BigEndian && v@[33].reset_value == 0x00
            && v@[33].fields@.len() == 3,
        v@[34].address == 0x005f && v@[34].size_bits == 8 && v@[34].access is ReadWrite
            && v@[34].byte_order is BigEndian && v@[34].reset_value == 0x00
            && v@[34].fields@.len() == 6,
        v@[35].address == 0x0060 && v@[35].size_bits == 16 && v@[35].access is ReadWrite
            && v@[35].byte_order is LittleEndian && v@[35].reset_value == 0x00
            && v@[35].fields@.len() == 1,
        v@[36].address == 0x0062 && v@[36].size_bits == 8 && v@[36].access is ReadWrite
            && v@[36].byte_order is BigEndian && v@[36].reset_value == 0x10
            && v@[36].fields@.len() == 3,
        v@[37].address == 0x0063 && v@[37].size_bits == 8 && v@[37].access is ReadWrite
            && v@[37].byte_order is BigEndian && v@[37].reset_value == 0x00
            && v@[37].fields@.len() == 3,
        v@[38].address == 0x0064 && v@[38].size_bits == 8 && v@[38].access is ReadWrite
            && v@[38].byte_order is BigEndian && v@[38].reset_value == 0x10
            && v@[38].fields@.len() == 3,
        v@[39].address == 0x0065 && v@[39].size_bits == 8 && v@[39].access is ReadWrite
            && v@[39].byte_order is BigEndian && v@[39].reset_value == 0x10
            && v@[39].fields@.len() == 7,
        v@[40].address == 0x0066 && v@[40].size_bits == 8 && v@[40].access is ReadWrite
            && v@[40].byte_order is BigEndian && v@[40].reset_value == 0x00
            && v@[40].fields@.len() == 5,
        v@[41].address == 0x0068 && v@[41].size_bits == 8 && v@[41].access is ReadWrite
            && v@[41].byte_order is BigEndian && v@[41].reset_value == 0x00
            && v@[41].fields@.len() == 7,
        v@[42].address == 0x0069 && v@[42].size_bits == 8 && v@[42].access is ReadWrite
            && v@[42].byte_order is BigEndian && v@[42].reset_value == 0x00
            && v@[42].fields@.len() == 5,
        v@[43].address == 0x006c && v@[43].size_bits == 16 && v@[43].access is ReadOnly
            && v@[43].byte_order is LittleEndian && v@[43].reset_value == 0x00
            && v@[43].fields@.len() == 1,
        v@[44].address == 0x0070 && v@[44].size_bits == 8 && v@[44].access is ReadWrite
            && v@[44].byte_order is BigEndian && v@[44].reset_value == 0x00
            && v@[44].fields@.len() == 7,
        v@[45].address == 0x0075 && v@[45].size_bits == 8 && v@[45].access is ReadOnly
            && v@[45].byte_order is BigEndian && v@[45].reset_value == 0x00
            && v@[45].fields@.len() == 1,
        v@[46].address == 0x0103 && v@[46].size_bits == 8 && v@[46].access is ReadWrite
            && v@[46].byte_order is BigEndian && v@[46].reset_value == 0x00
            && v@[46].fields@.len() == 6,
        v@[47].address == 0x010b && v@[47].size_bits == 8 && v@[47].access is ReadWrite
            && v@[47].byte_order is BigEndian && v@[47].reset_value == 0xa8
            && v@[47].fields@.len() == 2,
        v@[48].address == 0x010c && v@[48].size_bits == 24 && v@[48].access is ReadWrite
            && v@[48].byte_order is LittleEndian && v@[48].reset_value == 0x3f
            && v@[48].fields@.len() == 3,
        v@[49].address == 0x010f && v@[49].size_bits == 8 && v@[49].access is ReadWrite
            && v@[49].byte_order is BigEndian && v@[49].reset_value == 0x00
            && v@[49].fields@.len() == 1,
        v@[50].address == 0x0110 && v@[50].size_bits == 8 && v@[50].access is ReadWrite
            && v@[50].byte_order is BigEndian && v@[50].reset_value == 0x00
            && v@[50].fields@.len() == 1,
        v@[51].address == 0x0111 && v@[51].size_bits == 8 && v@[51].access is ReadWrite
            && v@[51].byte_order is BigEndian && v@[51].reset_value == 0x00
            && v@[51].fields@.len() == 1,
        v@[52].address == 0x0112 && v@[52].size_bits == 8 && v@[52].access is ReadWrite
            && v@[52].byte_order is BigEndian && v@[52].reset_value == 0x00
            && v@[52].fields@.len() == 6,
        v@[53].address == 0x0113 && v@[53].size_bits == 8 && v@[53].access is ReadWrite
            && v@[53].byte_order is BigEndian && v@[53].reset_value == 0x11
            && v@[53].fields@.len() == 1,
        v@[54].address == 0x015f && v@[54].size_bits == 8 && v@[54].access is ReadWrite
            && v@[54].byte_order is BigEndian && v@[54].reset_value == 0x00
            && v@[54].fields@.len() == 1,
        v@[55].address == 0x0160 && v@[55].size_bits == 8 && v@[55].access is ReadWrite
            && v@[55].byte_order is BigEndian && v@[55].reset_value == 0x00
            && v@[55].fields@.len() == 1,
        v@[56].address == 0x0161 && v@[56].size_bits == 8 && v@[56].access is ReadWrite
            && v@[56].byte_order is BigEndian && v@[56].reset_value == 0x00
            && v@[56].fields@.len() == 1,
        v@[57].address == 0x0162 && v@[57].size_bits == 24 && v@[57].access is ReadWrite
            && v@[57].byte_order is LittleEndian && v@[57].reset_value == 0x00
            && v@[57].fields@.len() == 1,
        v@[58].address == 0x017a && v@[58].size_bits == 8 && v@[58].access is ReadWrite
            && v@[58].byte_order is BigEndian && v@[58].reset_value == 0x03
            && v@[58].fields@.len() == 2,
        v@[59].address == 0x017b && v@[59].size_bits == 8 && v@[59].access is ReadWrite
            && v@[59].byte_order is BigEndian && v@[59].reset_value == 0x20
            && v@[59].fields@.len() == 1,
        v@[60].address == 0x017c && v@[60].size_bits == 8 && v@[60].access is ReadWrite
            && v@[60].byte_order is BigEndian && v@[60].reset_value == 0x5f
            && v@[60].fields@.len() == 6,
        v@[61].address == 0x020c && v@[61].size_bits == 24 && v@[61].access is ReadWrite
            && v@[61].byte_order is LittleEndian && v@[61].reset_value == 0x3f
            && v@[61].fields@.len() == 4,
        v@[62].address == 0x023b && v@[62].size_bits == 8 && v@[62].access is ReadWrite
            && v@[62].byte_order is BigEndian && v@[62].reset_value == 0x00
            && v@[62].fields@.len() == 1,
        v@[63].address == 0x023c && v@[63].size_bits == 8 && v@[63].access is ReadWrite
            && v@[63].byte_order is BigEndian && v@[63].reset_value == 0x00
            && v@[63].fields@.len() == 1,
        v@[64].address == 0x023d && v@[64].size_bits == 8 && v@[64].access is ReadWrite
            && v@[64].byte_order is BigEndian && v@[64].reset_value == 0x00
            && v@[64].fields@.len() == 1,
        v@[65].address == 0x0440 && v@[65].size_bits == 8 && v@[65].access is ReadWrite
            && v@[65].byte_order is BigEndian && v@[65].reset_value == 0xa2
            && v@[65].fields@.len() == 2,
        v@[66].address == 0x0441 && v@[66].size_bits == 8 && v@[66].access is ReadWrite
            && v@[66].byte_order is BigEndian && v@[66].reset_value == 0x85
            && v@[66].fields@.len() == 2,
        v@[67].address == 0x0442 && v@[67].size_bits == 8 && v@[67].access is ReadWrite
            && v@[67].byte_order is BigEndian && v@[67].reset_value == 0x51
            && v@[67].fields@.len() == 3,
        v@[68].address == 0x0443 && v@[68].size_bits == 8 && v@[68].access is ReadWrite
            && v@[68].byte_order is BigEndian && v@[68].reset_value == 0xa4
            && v@[68].fields@.len() == 2,
        v@[69].address == 0x0444 && v@[69].size_bits == 8 && v@[69].access is ReadWrite
            && v@[69].byte_order is BigEndian && v@[69].reset_value == 0x8c
            && v@[69].fields@.len() == 1,
        v@[70].address == 0x0445 && v@[70].size_bits == 8 && v@[70].access is ReadWrite
            && v@[70].byte_order is BigEndian && v@[70].reset_value == 0x5c
            && v@[70].fields@.len() == 1,
        v@[71].address == 0x0447 && v@[71].size_bits == 8 && v@[71].access is ReadWrite
            && v@[71].byte_order is BigEndian && v@[71].reset_value == 0x5b
            && v@[71].fields@.len() == 3,
        v@[72].address == 0x0448 && v@[72].size_bits == 8 && v@[72].access is ReadWrite
            && v@[72].byte_order is BigEndian && v@[72].reset_value == 0x00
            && v@[72].fields@.len() == 1,
        v@[73].address == 0x044a && v@[73].size_bits == 8 && v@[73].access is ReadWrite
            && v@[73].byte_order is BigEndian && v@[73].reset_value == 0x00
            && v@[73].fields@.len() == 1,
        v@[74].address == 0x044b && v@[74].size_bits == 8 && v@[74].access is ReadWrite
            && v@[74].byte_order is BigEndian && v@[74].reset_value == 0x00
            && v@[74].fields@.len() == 1,
        v@[75].address == 0x044c && v@[75].size_bits == 8 && v@[75].access is ReadWrite
            && v@[75].byte_order is BigEndian && v@[75].reset_value == 0x00
            && v@[75].fields@.len() == 1,
        v@[76].address == 0x044d && v@[76].size_bits == 8 && v@[76].access is ReadWrite
            && v@[76].byte_order is BigEndian && v@[76].reset_value == 0x00
            && v@[76].fields@.len() == 6,
        v@[77].address == 0x044e && v@[77].size_bits == 8 && v@[77].access is ReadWrite
            && v@[77].byte_order is BigEndian && v@[77].reset_value == 0x00
            && v@[77].fields@.len() == 6,
        v@[78].address == 0x044f && v@[78].size_bits == 8 && v@[78].access is ReadWrite
            && v@[78].byte_order is BigEndian && v@[78].reset_value == 0x00
            && v@[78].fields@.len() == 7,
        v@[79].address == 0x0450 && v@[79].size_bits == 8 && v@[79].access is ReadWrite
            && v@[79].byte_order is BigEndian && v@[79].reset_value == 0x00
            && v@[79].fields@.len() == 5,
        v@[80].address == 0x0451 && v@[80].size_bits == 8 && v@[80].access is ReadWrite
            && v@[80].byte_order is BigEndian && v@[80].reset_value == 0x00
            && v@[80].fields@.len() == 6,
        v@[81].address == 0x0477 && v@[81].size_bits == 8 && v@[81].access is ReadWrite
            && v@[81].byte_order is BigEndian && v@[81].reset_value == 0x00
            && v@[81].fields@.len() == 1,
        v@[82].address == 0x0478 && v@[82].size_bits == 8 && v@[82].access is ReadWrite
            && v@[82].byte_order is BigEndian && v@[82].reset_value == 0x00
            && v@[82].fields@.len() == 2,
        v@[83].address == 0x0479 && v@[83].size_bits == 8 && v@[83].access is ReadWrite
            && v@[83].byte_order is BigEndian && v@[83].reset_value == 0x00
            && v@[83].fields@.len() == 1,
        v@[84].address == 0x047a && v@[84].size_bits == 8 && v@[84].access is ReadWrite
            && v@[84].byte_order is BigEndian && v@[84].reset_value == 0x00
            && v@[84].fields@.len() == 1,
        v@[85].address == 0x047b && v@[85].size_bits == 8 && v@[85].access is ReadWrite
            && v@[85].byte_order is BigEndian && v@[85].reset_value == 0x00
            && v@[85].fields@.len() == 2,
        v@[86].address == 0x047c && v@[86].size_bits == 8 && v@[86].access is ReadWrite
            && v@[86].byte_order is BigEndian && v@[86].reset_value == 0x00
            && v@[86].fields@.len() == 1,
        v@[87].address == 0x047d && v@[87].size_bits == 8 && v@[87].access is ReadWrite
            && v@[87].byte_order is BigEndian && v@[87].reset_value == 0x00
            && v@[87].fields@.len() == 1,
        v@[88].address == 0x047e && v@[88].size_bits == 8 && v@[88].access is ReadWrite
            && v@[88].byte_order is BigEndian && v@[88].reset_value == 0x00
            && v@[88].fields@.len() == 2,
        v@[89].address == 0x047f && v@[89].size_bits == 8 && v@[89].access is ReadWrite
            && v@[89].byte_order is BigEndian && v@[89].reset_value == 0x00
            && v@[89].fields@.len() == 1,
{
    let mut v = bank0_registers();
    let ghost s0 = v@;
    let mut more = bank1_registers();
    let ghost s1 = more@;
    v.append(&mut more);
    let mut more = bank2_registers();
    let ghost s2 = more@;
    v.append(&mut more);
    let mut more = bank4_registers();
    let ghost s4 = more@;
    v.append(&mut more);
    proof {
        assert forall|i: int| 0 <= i < v@.len() implies register_wf(#[trigger] v@[i]) by {
            if i < 46 {
                assert(v@[i] == s0[i]);
            } else if i < 61 {
                assert(v@[i] == s1[i - 46]);
            } else if i < 65 {
                assert(v@[i] == s2[i - 61]);
            } else {
                assert(v@[i] == s4[i - 65]);
            }
        }
    }
    v
}

} // verus!
