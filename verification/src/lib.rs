//! Typed, bit-precise access to the registers of the ICM-42605 6-axis IMU.
//!
//! The device exposes its registers in several address banks behind an I2C
//! bus. This crate describes every register and field of the device in a
//! static descriptor table, packs and unpacks field values with a verified
//! codec, and drives the bus through an adapter that caches the last
//! selected bank so that redundant bank-select writes are elided.

pub mod address;
pub mod codec;
pub mod regmap;
pub mod registers;
pub mod transport;
