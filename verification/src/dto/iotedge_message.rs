//! The general per-command telemetry message: a timestamp, the device's
//! store name, its configured name, the command, and the response bytes.

use vstd::prelude::*;

verus! {

pub struct IotedgeMessageDto {
    pub timestamp: String,
    pub device_unique_name: String,
    pub hart_device_name: String,
    pub hart_command: u8,
    pub length: u8,
    pub bytes: Vec<u8>,
}

} // verus!
