use vstd::prelude::*;

verus! {

/// 128-bit UUID of the Apple Notification Center Service.
pub const ANCS_UUID: u128 = 0x7905f431_b5ce_4e99_a40f_4b1e122d00d0;

/// 128-bit UUID of the Notification Source characteristic.
pub const ANCS_NOTIFICATION_SOURCE_UUID: u128 = 0x9fbf120d_6301_42d9_8c58_25e699a21dbd;

/// 128-bit UUID of the Control Point characteristic.
pub const ANCS_CONTROL_POINT_UUID: u128 = 0x69d1d8f3_45e1_49a8_9821_9bbdfdaad9d9;

/// 128-bit UUID of the Data Source characteristic.
pub const ANCS_DATA_SOURCE_UUID: u128 = 0x22eac6e9_24d6_4bb5_be44_b36ace7c7bfb;

/// 128-bit form of the standard Client Characteristic Configuration
/// descriptor UUID (16-bit value 0x2902 on the Bluetooth base UUID).
pub const GATT_CCC_UUID: u128 = 0x00002902_0000_1000_8000_00805f9b34fb;

} // verus!
