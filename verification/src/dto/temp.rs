//! Decoded fields of the command responses the sink renders: the two
//! status bytes common to every command, the command-48 diagnostic bits,
//! and the command-0 identity fields.

use vstd::prelude::*;
use crate::device::spec_comm_status::FieldDeviceCommStatus;
use crate::device::spec_status::FieldDeviceStatus;
use crate::protocol::wire::spec_u16_be;

verus! {

/// The sink-facing message around a rendered data document.
pub struct Temp {
    pub timestamp: String,
    pub device_unique_name: String,
    pub hart_device_name: String,
    pub hart_command: u8,
    pub length: u8,
    pub data: String,
}

/// The two status flag sets every HART response opens with, taken from
/// `bytes[0]` and `bytes[1]`, or nothing when fewer than two bytes came
/// back.
pub fn map_statuses(bytes: &Vec<u8>) -> (r: Option<(FieldDeviceCommStatus, FieldDeviceStatus)>)
    ensures
        r is Some <==> bytes@.len() >= 2,
        r matches Some((comm, dev)) ==> ({
            &&& comm.communication_error == (bytes@[0] & 0x80 == 0x80)
            &&& comm.buffer_overflow == (bytes@[0] & 0x02 == 0x02)
            &&& dev.device_malfunction == (bytes@[1] & 0x80 == 0x80)
            &&& dev.cold_start == (bytes@[1] & 0x20 == 0x20)
        }),
{
    if bytes.len() < 2 {
        return None;
    }
    let statuses: [u8; 2] = [bytes[0], bytes[1]];
    let mut comm = FieldDeviceCommStatus::new();
    comm.map_to_comm_status(statuses);
    let mut dev = FieldDeviceStatus::new();
    dev.map_to_device_status(statuses);
    Some((comm, dev))
}

/// The diagnostic bits of a HART command-48 response.
pub struct Command48ResponseDto {
    pub response_code: FieldDeviceCommStatus,
    pub field_device_status: FieldDeviceStatus,
    pub hw_fw_error: bool,
    pub diag_alarm: bool,
    pub diag_warn: bool,
    pub sim_mode: bool,
    pub sensor_break_0: bool,
    pub ram_failure: bool,
    pub rom_failure: bool,
    pub sim_pressure: bool,
    pub sim_sensor_temperature: bool,
    pub sim_el_temperature: bool,
    pub watchdog_failed: bool,
    pub watchdog_triggered: bool,
    pub service_alarm: bool,
}

impl Command48ResponseDto {
    /// Decodes the command-48 diagnostic bits from the response bytes
    /// (status bytes included). Needs the 25 bytes the bits live in.
    pub fn from_response_bytes(bytes: &Vec<u8>) -> (r: Option<Self>)
        ensures
            r is Some <==> bytes@.len() >= 25,
            r matches Some(d) ==> ({
                &&& d.hw_fw_error == (bytes@[2] & 0x01 == 0x01)
                &&& d.diag_alarm == (bytes@[2] & 0x02 == 0x02)
                &&& d.diag_warn == (bytes@[2] & 0x04 == 0x04)
                &&& d.sim_mode == (bytes@[2] & 0x08 == 0x08)
                &&& d.sensor_break_0 == (bytes@[2] & 0x10 == 0x10)
                &&& d.ram_failure == (bytes@[3] & 0x01 == 0x01)
                &&& d.rom_failure == (bytes@[3] & 0x02 == 0x02)
                &&& d.sim_pressure == (bytes@[24] & 0x01 == 0x01)
                &&& d.sim_sensor_temperature == (bytes@[24] & 0x02 == 0x02)
                &&& d.sim_el_temperature == (bytes@[24] & 0x04 == 0x04)
                &&& d.watchdog_failed == (bytes@[5] & 0x08 == 0x08)
                &&& d.watchdog_triggered == (bytes@[5] & 0x10 == 0x10)
                &&& d.service_alarm == (bytes@[8] & 0x01 == 0x01)
            }),
    {
        if bytes.len() < 25 {
            return None;
        }
        let statuses = match map_statuses(bytes) {
            Some(s) => s,
            None => {
                return None;
            },
        };
        Some(
            Command48ResponseDto {
                response_code: statuses.0,
                field_device_status: statuses.1,
                hw_fw_error: bytes[2] & 0x01 == 0x01,
                diag_alarm: bytes[2] & 0x02 == 0x02,
                diag_warn: bytes[2] & 0x04 == 0x04,
                sim_mode: bytes[2] & 0x08 == 0x08,
                sensor_break_0: bytes[2] & 0x10 == 0x10,
                ram_failure: bytes[3] & 0x01 == 0x01,
                rom_failure: bytes[3] & 0x02 == 0x02,
                sim_pressure: bytes[24] & 0x01 == 0x01,
                sim_sensor_temperature: bytes[24] & 0x02 == 0x02,
                sim_el_temperature: bytes[24] & 0x04 == 0x04,
                watchdog_failed: bytes[5] & 0x08 == 0x08,
                watchdog_triggered: bytes[5] & 0x10 == 0x10,
                service_alarm: bytes[8] & 0x01 == 0x01,
            },
        )
    }
}

/// The identity fields of a HART command-0 response.
pub struct Command0ResponseDto {
    pub response_code: FieldDeviceCommStatus,
    pub field_device_status: FieldDeviceStatus,
    pub hart_major_revision_number: u8,
    pub device_revision_level: u8,
    pub software_revision_level: u8,
    pub configuration_change_counter: u16,
    pub maintenance_required: bool,
    pub device_variable_alert: bool,
    pub critical_power_failure: bool,
    pub failure: bool,
    pub out_of_specification: bool,
    pub function_check: bool,
}

impl Command0ResponseDto {
    /// Decodes the command-0 identity fields from the response bytes
    /// (status bytes included).
    pub fn from_response_bytes(bytes: &Vec<u8>) -> (r: Option<Self>)
        ensures
            r is Some <==> bytes@.len() >= 18,
            r matches Some(d) ==> ({
                &&& d.hart_major_revision_number == bytes@[6]
                &&& d.device_revision_level == bytes@[7]
                &&& d.software_revision_level == bytes@[8]
                &&& d.configuration_change_counter == spec_u16_be(bytes@[16], bytes@[17])
                &&& !d.maintenance_required
                &&& !d.device_variable_alert
                &&& !d.critical_power_failure
                &&& !d.failure
                &&& !d.out_of_specification
                &&& !d.function_check
            }),
    {
        if bytes.len() < 18 {
            return None;
        }
        let statuses = match map_statuses(bytes) {
            Some(s) => s,
            None => {
                return None;
            },
        };
        Some(
            Command0ResponseDto {
                response_code: statuses.0,
                field_device_status: statuses.1,
                hart_major_revision_number: bytes[6],
                device_revision_level: bytes[7],
                software_revision_level: bytes[8],
                configuration_change_counter: crate::protocol::wire::read_u16_be(bytes, 16),
                maintenance_required: false,
                device_variable_alert: false,
                critical_power_failure: false,
                failure: false,
                out_of_specification: false,
                function_check: false,
            },
        )
    }
}

} // verus!
