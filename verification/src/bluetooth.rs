//! Data shapes of the short-range wireless device-discovery peripheral.
//!
//! The discovery service itself is an unrelated peripheral that polls nearby
//! devices into a cache from a background task; it runs entirely in the
//! embedding application and never touches inference state.  Only its data
//! shapes live here.

use vstd::prelude::*;

verus! {

/// One discovered nearby device.
#[derive(Debug, Clone)]
pub struct BluetoothDevice {
    pub id: String,
    pub name: Option<String>,
    pub address: String,
    pub rssi: Option<i16>,
    pub is_connectable: bool,
    pub services: Vec<String>,
}

/// The outcome of one scan pass.
#[derive(Debug)]
pub struct ScanResult {
    pub success: bool,
    pub message: String,
    pub devices: Vec<BluetoothDevice>,
}

/// A failure of the discovery peripheral, as a kind tag plus a
/// human-readable message.
#[derive(Debug, Clone)]
pub struct BluetoothError {
    pub error_type: String,
    pub message: String,
}

} // verus!
