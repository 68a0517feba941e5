//! The field-device communication status: the first status byte of every
//! HART response, a bit set of transmission errors.

use vstd::prelude::*;

verus! {

#[derive(Debug, Clone, Copy, PartialEq, Eq, Structural)]
pub struct FieldDeviceCommStatus {
    pub buffer_overflow: bool,
    pub communication_failure: bool,
    pub longitudinal_parity_error: bool,
    pub framing_error: bool,
    pub overrun_error: bool,
    pub vertical_parity_error: bool,
    pub communication_error: bool,
}

impl FieldDeviceCommStatus {
    /// All flags clear.
    pub fn new() -> (r: Self)
        ensures
            r == (FieldDeviceCommStatus {
                buffer_overflow: false,
                communication_failure: false,
                longitudinal_parity_error: false,
                framing_error: false,
                overrun_error: false,
                vertical_parity_error: false,
                communication_error: false,
            }),
    {
        FieldDeviceCommStatus {
            buffer_overflow: false,
            communication_failure: false,
            longitudinal_parity_error: false,
            framing_error: false,
            overrun_error: false,
            vertical_parity_error: false,
            communication_error: false,
        }
    }

    /// Sets every flag from its bit in the first status byte.
    pub fn map_to_comm_status(&mut self, hart_statuses: [u8; 2])
        ensures
            final(self).buffer_overflow == (hart_statuses@[0] & 0x02 == 0x02),
            final(self).communication_failure == (hart_statuses@[0] & 0x04 == 0x04),
            final(self).longitudinal_parity_error == (hart_statuses@[0] & 0x08 == 0x08),
            final(self).framing_error == (hart_statuses@[0] & 0x10 == 0x10),
            final(self).overrun_error == (hart_statuses@[0] & 0x20 == 0x20),
            final(self).vertical_parity_error == (hart_statuses@[0] & 0x40 == 0x40),
            final(self).communication_error == (hart_statuses@[0] & 0x80 == 0x80),
    {
        let comm_statuses = hart_statuses[0];
        self.buffer_overflow = comm_statuses & 0x02 == 0x02;
        self.communication_failure = comm_statuses & 0x04 == 0x04;
        self.longitudinal_parity_error = comm_statuses & 0x08 == 0x08;
        self.framing_error = comm_statuses & 0x10 == 0x10;
        self.overrun_error = comm_statuses & 0x20 == 0x20;
        self.vertical_parity_error = comm_statuses & 0x40 == 0x40;
        self.communication_error = comm_statuses & 0x80 == 0x80;
    }
}

} // verus!
