//! The field-device status: the second status byte of every HART
//! response, a bit set of device conditions.

use vstd::prelude::*;

verus! {

#[derive(Debug, Clone, Copy, PartialEq, Eq, Structural)]
pub struct FieldDeviceStatus {
    pub primary_variable_out_of_limits: bool,
    pub non_primary_variable_out_of_limits: bool,
    pub loop_current_saturated: bool,
    pub loop_current_fixed: bool,
    pub more_status_available: bool,
    pub cold_start: bool,
    pub configuration_changed: bool,
    pub device_malfunction: bool,
}

impl FieldDeviceStatus {
    /// All flags clear.
    pub fn new() -> (r: Self)
        ensures
            r == (FieldDeviceStatus {
                primary_variable_out_of_limits: false,
                non_primary_variable_out_of_limits: false,
                loop_current_saturated: false,
                loop_current_fixed: false,
                more_status_available: false,
                cold_start: false,
                configuration_changed: false,
                device_malfunction: false,
            }),
    {
        FieldDeviceStatus {
            primary_variable_out_of_limits: false,
            non_primary_variable_out_of_limits: false,
            loop_current_saturated: false,
            loop_current_fixed: false,
            more_status_available: false,
            cold_start: false,
            configuration_changed: false,
            device_malfunction: false,
        }
    }

    /// Sets every flag from its bit in the second status byte.
    pub fn map_to_device_status(&mut self, hart_statuses: [u8; 2])
        ensures
            final(self).primary_variable_out_of_limits == (hart_statuses@[1] & 0x01 == 0x01),
            final(self).non_primary_variable_out_of_limits == (hart_statuses@[1] & 0x02 == 0x02),
            final(self).loop_current_saturated == (hart_statuses@[1] & 0x04 == 0x04),
            final(self).loop_current_fixed == (hart_statuses@[1] & 0x08 == 0x08),
            final(self).more_status_available == (hart_statuses@[1] & 0x10 == 0x10),
            final(self).cold_start == (hart_statuses@[1] & 0x20 == 0x20),
            final(self).configuration_changed == (hart_statuses@[1] & 0x40 == 0x40),
            final(self).device_malfunction == (hart_statuses@[1] & 0x80 == 0x80),
    {
        let device_statuses = hart_statuses[1];
        self.primary_variable_out_of_limits = device_statuses & 0x01 == 0x01;
        self.non_primary_variable_out_of_limits = device_statuses & 0x02 == 0x02;
        self.loop_current_saturated = device_statuses & 0x04 == 0x04;
        self.loop_current_fixed = device_statuses & 0x08 == 0x08;
        self.more_status_available = device_statuses & 0x10 == 0x10;
        self.cold_start = device_statuses & 0x20 == 0x20;
        self.configuration_changed = device_statuses & 0x40 == 0x40;
        self.device_malfunction = device_statuses & 0x80 == 0x80;
    }
}

} // verus!
