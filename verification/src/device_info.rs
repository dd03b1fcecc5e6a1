//! The device-information record of the info feature's response.

use vstd::prelude::*;
use crate::FromBytes;

verus! {

/// Identity fields a device reports about itself.
#[derive(Clone, Copy, Debug)]
pub struct DeviceInfo {
    /// Number of entities in the device.
    pub entity_count: u8,
    /// Device-specific identifier.
    pub unit_id: [u8; 4],
    /// Transport capability bitfield.
    pub transport: [u8; 2],
    /// Model identifier.
    pub model_id: [u8; 6],
}

impl FromBytes for DeviceInfo {
    open spec fn from_bytes_req(bytes: Seq<u8>) -> bool {
        bytes.len() >= 13
    }

    open spec fn from_bytes_spec(bytes: Seq<u8>) -> DeviceInfo {
        DeviceInfo {
            entity_count: bytes[0],
            unit_id: [bytes[1], bytes[2], bytes[3], bytes[4]],
            transport: [bytes[5], bytes[6]],
            model_id: [bytes[7], bytes[8], bytes[9], bytes[10], bytes[11], bytes[12]],
        }
    }

    fn from_bytes(bytes: &[u8]) -> (r: DeviceInfo) {
        DeviceInfo {
            entity_count: bytes[0],
            unit_id: [bytes[1], bytes[2], bytes[3], bytes[4]],
            transport: [bytes[5], bytes[6]],
            model_id: [bytes[7], bytes[8], bytes[9], bytes[10], bytes[11], bytes[12]],
        }
    }
}

} // verus!
