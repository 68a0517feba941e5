//! Unit tests for the status mappers, metadata extraction, response
//! DTOs, configuration helpers and CLI mode parsing.

use pnio_hart::cli::WorkingMode;
use pnio_hart::client::lookup::last_udp_port;
use pnio_hart::protocol::dcerpc_epm_res::TowerPointer;
use pnio_hart::config::{
    clone_hart_commands, config_contains_key, Config, ConfigHartDevice, DeviceKey, HartCommand,
    LOCALHOST_SENTINEL,
};
use pnio_hart::device::metadata::Metadata;
use pnio_hart::device::spec_comm_status::FieldDeviceCommStatus;
use pnio_hart::device::spec_status::FieldDeviceStatus;
use pnio_hart::dto::temp::{Command0ResponseDto, Command48ResponseDto};
use pnio_hart::protocol::constant::{
    BlockHeaderType, InterfaceVersion, OpNum, PacketType, TowerFloorProtocol,
};

#[test]
fn comm_status_bits_map_to_flags() {
    let mut status = FieldDeviceCommStatus::new();
    status.map_to_comm_status([0x86, 0x00]);
    assert!(status.buffer_overflow);
    assert!(status.communication_failure);
    assert!(!status.longitudinal_parity_error);
    assert!(!status.framing_error);
    assert!(!status.overrun_error);
    assert!(!status.vertical_parity_error);
    assert!(status.communication_error);
}

#[test]
fn device_status_bits_map_to_flags() {
    let mut status = FieldDeviceStatus::new();
    status.map_to_device_status([0x00, 0x31]);
    assert!(status.primary_variable_out_of_limits);
    assert!(!status.non_primary_variable_out_of_limits);
    assert!(!status.loop_current_saturated);
    assert!(!status.loop_current_fixed);
    assert!(status.more_status_available);
    assert!(status.cold_start);
    assert!(!status.configuration_changed);
    assert!(!status.device_malfunction);
}

#[test]
fn metadata_reads_its_offsets() {
    let mut metadata = Metadata {
        hart_protocol_major_revision: 0,
        device_revision_level: 0,
        software_revision_level: 0,
        number_of_preemble_bytes_in_response: 0,
        configuration_change_counter: 0,
    };
    let mut response = vec![0u8; 16];
    response[3] = 7;
    response[5] = 3;
    response[6] = 9;
    response[12] = 5;
    response[14] = 0x01;
    response[15] = 0x02;
    metadata.map_to_metadata(&response);
    assert_eq!(metadata.hart_protocol_major_revision, 7);
    assert_eq!(metadata.device_revision_level, 3);
    assert_eq!(metadata.software_revision_level, 9);
    assert_eq!(metadata.number_of_preemble_bytes_in_response, 5);
    assert_eq!(metadata.configuration_change_counter, 0x0102);

    // A short response leaves the later fields untouched.
    metadata.map_to_metadata(&vec![0u8; 4]);
    assert_eq!(metadata.hart_protocol_major_revision, 0);
    assert_eq!(metadata.configuration_change_counter, 0x0102);
}

#[test]
fn command48_bits_are_extracted() {
    let mut bytes = vec![0u8; 25];
    bytes[2] = 0x15; // hw/fw error, warn, sensor break
    bytes[3] = 0x02; // rom failure
    bytes[5] = 0x18; // watchdog failed and triggered
    bytes[8] = 0x01; // service alarm
    bytes[24] = 0x05; // sim pressure and el temperature
    let dto = Command48ResponseDto::from_response_bytes(&bytes).unwrap();
    assert!(dto.hw_fw_error);
    assert!(!dto.diag_alarm);
    assert!(dto.diag_warn);
    assert!(!dto.sim_mode);
    assert!(dto.sensor_break_0);
    assert!(!dto.ram_failure);
    assert!(dto.rom_failure);
    assert!(dto.sim_pressure);
    assert!(!dto.sim_sensor_temperature);
    assert!(dto.sim_el_temperature);
    assert!(dto.watchdog_failed);
    assert!(dto.watchdog_triggered);
    assert!(dto.service_alarm);

    assert!(Command48ResponseDto::from_response_bytes(&vec![0u8; 24]).is_none());
}

#[test]
fn command0_fields_are_extracted() {
    let mut bytes = vec![0u8; 18];
    bytes[6] = 7;
    bytes[7] = 3;
    bytes[8] = 9;
    bytes[16] = 0x01;
    bytes[17] = 0x10;
    let dto = Command0ResponseDto::from_response_bytes(&bytes).unwrap();
    assert_eq!(dto.hart_major_revision_number, 7);
    assert_eq!(dto.device_revision_level, 3);
    assert_eq!(dto.software_revision_level, 9);
    assert_eq!(dto.configuration_change_counter, 0x0110);
    assert!(!dto.failure);

    assert!(Command0ResponseDto::from_response_bytes(&vec![0u8; 17]).is_none());
}

#[test]
fn working_mode_parses_its_two_names() {
    assert!(matches!(
        WorkingMode::from_str(&String::from("iotedge")),
        Some(WorkingMode::IotEdgeMode)
    ));
    assert!(matches!(
        WorkingMode::from_str(&String::from("local")),
        Some(WorkingMode::LocalMode)
    ));
    assert!(WorkingMode::from_str(&String::from("remote")).is_none());
}

#[test]
fn config_keys_skip_the_sentinel() {
    let make = |ip: u32| Config {
        ip_address: ip,
        port: 34964,
        device_name: b"module".to_vec(),
        hart_devices: vec![ConfigHartDevice {
            slot_number: 2,
            subslot_number: 3,
            hart_commands: vec![],
            request_data_record_number: 80,
            response_data_record_number: 81,
            hart_device_name: String::from("sensor"),
        }],
    };
    let configs = vec![make(0x0a000001), make(LOCALHOST_SENTINEL)];
    assert!(config_contains_key(
        &configs,
        DeviceKey {
            ip: 0x0a000001,
            slot: 2,
            subslot: 3
        }
    ));
    assert!(!config_contains_key(
        &configs,
        DeviceKey {
            ip: LOCALHOST_SENTINEL,
            slot: 2,
            subslot: 3
        }
    ));
    assert!(!config_contains_key(
        &configs,
        DeviceKey {
            ip: 0x0a000001,
            slot: 2,
            subslot: 4
        }
    ));
}

#[test]
fn hart_commands_are_copied_deeply() {
    let commands = vec![
        HartCommand {
            number: 48,
            data: None,
        },
        HartCommand {
            number: 9,
            data: Some(vec![1, 2, 3]),
        },
    ];
    let copied = clone_hart_commands(&commands);
    assert_eq!(copied.len(), 2);
    assert_eq!(copied[0].number, 48);
    assert!(copied[0].data.is_none());
    assert_eq!(copied[1].number, 9);
    assert_eq!(copied[1].data.as_ref().unwrap(), &vec![1, 2, 3]);
}

#[test]
fn protocol_constants_convert_both_ways() {
    assert!(matches!(
        TowerFloorProtocol::from_u8(0x0d),
        Some(TowerFloorProtocol::Uuid)
    ));
    assert!(matches!(
        TowerFloorProtocol::from_u8(0x08),
        Some(TowerFloorProtocol::Udp)
    ));
    assert!(TowerFloorProtocol::from_u8(0x42).is_none());

    assert!(matches!(
        InterfaceVersion::from_u32(3),
        Some(InterfaceVersion::Lookup)
    ));
    assert!(matches!(
        InterfaceVersion::from_u32(1),
        Some(InterfaceVersion::ReadWrite)
    ));
    assert!(InterfaceVersion::from_u32(2).is_none());

    assert!(matches!(OpNum::from_u16(0), Some(OpNum::Connect)));
    assert!(matches!(OpNum::from_u16(2), Some(OpNum::Read)));
    assert!(matches!(OpNum::from_u16(3), Some(OpNum::Write)));
    assert!(OpNum::from_u16(4).is_none());

    assert!(matches!(PacketType::from_u8(0), Some(PacketType::Request)));
    assert!(matches!(PacketType::from_u8(2), Some(PacketType::Response)));
    assert!(matches!(PacketType::from_u8(6), Some(PacketType::Reject)));
    assert!(PacketType::from_u8(1).is_none());

    assert!(matches!(
        BlockHeaderType::from_u16(0x0101),
        Some(BlockHeaderType::ArBlockReqType)
    ));
    assert!(matches!(
        BlockHeaderType::from_u16(0x8008),
        Some(BlockHeaderType::IodWriteResType)
    ));
    assert!(BlockHeaderType::from_u16(0x4242).is_none());
}

#[test]
fn the_last_udp_floor_names_the_port() {
    // A hand-assembled tower with two UDP floors; the later one wins.
    let mut tower = Vec::new();
    tower.extend_from_slice(&[0u8; 4]); // referent id
    tower.extend_from_slice(&0u32.to_le_bytes()); // annotation offset
    tower.extend_from_slice(&0u32.to_le_bytes()); // annotation length
    tower.extend_from_slice(&0u32.to_le_bytes()); // length1
    tower.extend_from_slice(&0u32.to_le_bytes()); // length2
    tower.extend_from_slice(&2u16.to_le_bytes()); // two floors
    for port in [0x1111u16, 0x2222u16] {
        tower.extend_from_slice(&1u16.to_le_bytes()); // lhs length
        tower.push(0x08); // UDP protocol
        tower.extend_from_slice(&2u16.to_le_bytes()); // rhs length
        tower.extend_from_slice(&port.to_be_bytes());
    }
    let decoded = TowerPointer::decode(&tower).unwrap();
    assert_eq!(decoded.floors.len(), 2);
    assert_eq!(last_udp_port(&decoded.floors), Some(0x2222));
}

#[test]
fn unknown_floor_protocols_are_skipped() {
    let mut tower = Vec::new();
    tower.extend_from_slice(&[0u8; 4]);
    tower.extend_from_slice(&0u32.to_le_bytes());
    tower.extend_from_slice(&0u32.to_le_bytes());
    tower.extend_from_slice(&0u32.to_le_bytes());
    tower.extend_from_slice(&0u32.to_le_bytes());
    tower.extend_from_slice(&2u16.to_le_bytes());
    // An unrecognised protocol identifier, then a UDP floor.
    tower.extend_from_slice(&1u16.to_le_bytes());
    tower.push(0x1f);
    tower.extend_from_slice(&0u16.to_le_bytes());
    tower.extend_from_slice(&1u16.to_le_bytes());
    tower.push(0x08);
    tower.extend_from_slice(&2u16.to_le_bytes());
    tower.extend_from_slice(&0x8894u16.to_be_bytes());
    let decoded = TowerPointer::decode(&tower).unwrap();
    assert_eq!(decoded.num_of_floors, 2);
    assert_eq!(decoded.floors.len(), 1);
    assert_eq!(decoded.floors[0].udp_port, Some(0x8894));
}
