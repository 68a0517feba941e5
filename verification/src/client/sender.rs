//! The message sink the worker hands command responses to.

use vstd::prelude::*;
use crate::config::DeviceKey;
use crate::error::SendError;

verus! {

/// A sink for per-command telemetry. Implementations live outside the
/// library (a cloud client or a broker in production, a recorder in
/// tests); they stamp the message with the current time, render it, and
/// submit it. Nothing is assumed about what they do with it.
pub trait Sender {
    /// Prepares the sink for use.
    fn setup(&mut self) -> Result<(), SendError>;

    /// Hands one HART command response to the sink: the store key of the
    /// device, its configured name, the command number, the record's
    /// data-length byte, and the bytes from the HART status on.
    fn send(
        &mut self,
        device_unique_name: DeviceKey,
        hart_device_name: &String,
        hart_command: u8,
        length: u8,
        bytes: &Vec<u8>,
    ) -> Result<(), SendError>;
}

} // verus!
