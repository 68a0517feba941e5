//! Worker reconciliation and polling-round tests against scripted
//! transports and a recording sink.

use pnio_hart::client::lookup::LookupClient;
use pnio_hart::client::sender::Sender;
use pnio_hart::client::worker::{StoreEntry, Worker};
use pnio_hart::config::{Config, ConfigHartDevice, DeviceKey, HartCommand, LOCALHOST_SENTINEL};
use pnio_hart::device::pnio_device::PnioDevice;
use pnio_hart::error::{LookupError, SendError, TransportError};
use pnio_hart::protocol::constant::{BlockHeaderType, InterfaceVersion, OpNum, PacketType};
use pnio_hart::protocol::dcerpc::DceRpcPacket;
use pnio_hart::protocol::packet::Packet;
use pnio_hart::protocol::pnio_header::PnioHeader;
use pnio_hart::protocol::pnio_header_iod_res::IodRes;
use pnio_hart::transport::transport_client::TransportClient;

fn epm_stub() -> Vec<u8> {
    let hex_string = "00000000290000000000\
                      00108000ec1c5d4d5497\
                      01000000010000000000\
                      0000010000000000a0de\
                      976cd111827100010313\
                      002a0300000000000000\
                      40000000455432303053\
                      50202020202020202020\
                      20202020202020202020\
                      36455337203135352d36\
                      415530312d30424e3020\
                      20202020203420562020\
                      34202032202030004b00\
                      00004b00000005001300\
                      0d0100a0de976cd11182\
                      7100a02442df7d010002\
                      00000013000d045d888a\
                      eb1cc9119fe808002b10\
                      48600200020000000100\
                      0a020000000100080200\
                      c0040100090400000000\
                      007000000000";
    hex::decode(hex_string).unwrap()
}

fn wrap_dcerpc(stub: Vec<u8>) -> Vec<u8> {
    DceRpcPacket::new(
        PacketType::Response,
        [0u8; 16],
        [0u8; 16],
        InterfaceVersion::Lookup,
        [0u8; 16],
        0,
        OpNum::Read,
        stub,
    )
    .concat()
}

/// A transport whose lookup conversation always succeeds with the
/// captured endpoint-mapper reply, and whose read records are always
/// ready with a fixed payload.
struct HappyTransport {
    sent: Vec<Vec<u8>>,
}

impl TransportClient for HappyTransport {
    fn bind(_src_ip: u32, _dst_ip: u32, _dst_port: u16) -> Result<Self, TransportError> {
        Ok(HappyTransport { sent: Vec::new() })
    }

    fn send(&mut self, data: &Vec<u8>) -> Result<usize, TransportError> {
        self.sent.push(data.clone());
        Ok(data.len())
    }

    fn receive(&mut self) -> Result<Vec<u8>, TransportError> {
        let last = self.sent.last().expect("receive before send");
        let interface_ver = u32::from_le_bytes([last[60], last[61], last[62], last[63]]);
        if interface_ver == 3 {
            // An endpoint-mapper lookup.
            return Ok(wrap_dcerpc(epm_stub()));
        }
        let opnum = u16::from_le_bytes([last[68], last[69]]);
        if opnum == 0 {
            // A connect request: any reply will do.
            return Ok(vec![0u8; 4]);
        }
        if opnum == 3 {
            // A write request: a zero-status write response.
            let block =
                IodRes::new(BlockHeaderType::IodWriteResType, 0, [0u8; 16], 0, 1, 80, [0u8; 4], 0)
                    .concat();
            return Ok(wrap_dcerpc_rw(envelope([0u8; 4], block, &[])));
        }
        // A read request: a ready record, long enough to carry the
        // command-0 identity bytes as well.
        let mut record = vec![0u8; 20];
        record[0] = 0x04;
        record[9] = 4;
        record[10] = 0x00;
        record[11] = 0x40;
        record[12] = 0xAA;
        record[13] = 0xBB;
        record[17] = 0x01;
        let block = IodRes::new(
            BlockHeaderType::IodReadResType,
            0,
            [0u8; 16],
            0,
            1,
            81,
            [0u8; 4],
            record.len() as u32,
        )
        .concat();
        Ok(wrap_dcerpc_rw(envelope([0u8; 4], block, &record)))
    }

    fn update_dest(&mut self, _dst_ip: u32, _dst_port: u16) -> Result<(), TransportError> {
        Ok(())
    }

    fn get_dst_conn_details(&self) -> Result<(u32, u16), TransportError> {
        Ok((0xc0a80001, 0xc004))
    }

    fn wait_before_retry(&mut self) {}

    fn debug(&self) -> String {
        String::from("happy")
    }
}

fn wrap_dcerpc_rw(stub: Vec<u8>) -> Vec<u8> {
    DceRpcPacket::new(
        PacketType::Response,
        [0u8; 16],
        [0u8; 16],
        InterfaceVersion::ReadWrite,
        [0u8; 16],
        0,
        OpNum::Read,
        stub,
    )
    .concat()
}

fn envelope(status: [u8; 4], block: Vec<u8>, record: &[u8]) -> Vec<u8> {
    let mut v = Vec::new();
    let args_length = (block.len() + record.len()) as u32;
    v.extend_from_slice(&status);
    v.extend_from_slice(&args_length.to_le_bytes());
    v.extend_from_slice(&args_length.to_le_bytes());
    v.extend_from_slice(&0u32.to_le_bytes());
    v.extend_from_slice(&args_length.to_le_bytes());
    v.extend_from_slice(&block);
    v.extend_from_slice(record);
    v
}

/// A transport that cannot be bound at all.
struct DeadTransport;

impl TransportClient for DeadTransport {
    fn bind(_src_ip: u32, _dst_ip: u32, _dst_port: u16) -> Result<Self, TransportError> {
        Err(TransportError)
    }

    fn send(&mut self, _data: &Vec<u8>) -> Result<usize, TransportError> {
        Err(TransportError)
    }

    fn receive(&mut self) -> Result<Vec<u8>, TransportError> {
        Err(TransportError)
    }

    fn update_dest(&mut self, _dst_ip: u32, _dst_port: u16) -> Result<(), TransportError> {
        Err(TransportError)
    }

    fn get_dst_conn_details(&self) -> Result<(u32, u16), TransportError> {
        Err(TransportError)
    }

    fn wait_before_retry(&mut self) {}

    fn debug(&self) -> String {
        String::from("dead")
    }
}

fn sample_config(ip: u32) -> Config {
    Config {
        ip_address: ip,
        port: 34964,
        device_name: b"6ES7 155-6AU01-0BN0".to_vec(),
        hart_devices: vec![ConfigHartDevice {
            slot_number: 0,
            subslot_number: 1,
            hart_commands: vec![HartCommand {
                number: 48,
                data: None,
            }],
            request_data_record_number: 80,
            response_data_record_number: 81,
            hart_device_name: String::from("pressure sensor"),
        }],
    }
}

struct RecordingSink {
    messages: Vec<(DeviceKey, String, u8, u8, Vec<u8>)>,
}

impl Sender for RecordingSink {
    fn setup(&mut self) -> Result<(), SendError> {
        Ok(())
    }

    fn send(
        &mut self,
        device_unique_name: DeviceKey,
        hart_device_name: &String,
        hart_command: u8,
        length: u8,
        bytes: &Vec<u8>,
    ) -> Result<(), SendError> {
        self.messages.push((
            device_unique_name,
            hart_device_name.clone(),
            hart_command,
            length,
            bytes.clone(),
        ));
        Ok(())
    }
}

#[test]
fn evaluate_inserts_updates_and_removes() {
    let mut worker: Worker<HappyTransport> = Worker::new();
    let configs = vec![sample_config(0xc0a80001)];

    worker.evaluate(0xc0a80064, &configs);
    assert_eq!(worker.store.len(), 1);
    let key = DeviceKey {
        ip: 0xc0a80001,
        slot: 0,
        subslot: 1,
    };
    assert_eq!(worker.store[0].key, key);
    assert_eq!(worker.store[0].device.device_id, [0u8; 5]);
    assert_eq!(worker.store[0].commands.len(), 1);

    // A second evaluation with changed record numbers updates in place,
    // keeping the session: address, counters and bootstrapped identity
    // survive reconciliation.
    worker.store[0].device.device_id = [9, 9, 9, 9, 9];
    worker.store[0].device.dcerpc_seq_num = 7;
    worker.store[0].device.pnio_seq_num = 7;
    let handle_before = worker.store[0].device.handle.clone();
    let mut changed = vec![sample_config(0xc0a80001)];
    changed[0].hart_devices[0].request_data_record_number = 90;
    changed[0].hart_devices[0].response_data_record_number = 91;
    changed[0].hart_devices[0].hart_commands = vec![
        HartCommand {
            number: 9,
            data: None,
        },
        HartCommand {
            number: 14,
            data: None,
        },
    ];
    worker.evaluate(0xc0a80064, &changed);
    assert_eq!(worker.store.len(), 1);
    assert_eq!(worker.store[0].device.request_data_record_number, 90);
    assert_eq!(worker.store[0].device.response_data_record_number, 91);
    assert_eq!(worker.store[0].commands.len(), 2);
    assert_eq!(worker.store[0].device.device_id, [9, 9, 9, 9, 9]);
    assert_eq!(worker.store[0].device.dcerpc_seq_num, 7);
    assert_eq!(worker.store[0].device.pnio_seq_num, 7);
    assert_eq!(worker.store[0].device.handle, handle_before);

    // An empty configuration empties the store.
    worker.evaluate(0xc0a80064, &vec![]);
    assert_eq!(worker.store.len(), 0);
}

#[test]
fn evaluate_skips_sentinel_entries() {
    let mut worker: Worker<HappyTransport> = Worker::new();
    let configs = vec![sample_config(LOCALHOST_SENTINEL)];
    worker.evaluate(0xc0a80064, &configs);
    assert_eq!(worker.store.len(), 0);
}

#[test]
fn evaluate_leaves_out_devices_whose_lookup_fails() {
    let mut worker: Worker<DeadTransport> = Worker::new();
    let configs = vec![sample_config(0xc0a80001)];
    worker.evaluate(0xc0a80064, &configs);
    assert_eq!(worker.store.len(), 0);
}

#[test]
fn read_round_forwards_responses_to_the_sink() {
    let mut worker: Worker<HappyTransport> = Worker::new();
    let key = DeviceKey {
        ip: 0xc0a80001,
        slot: 0,
        subslot: 1,
    };
    let transport = HappyTransport { sent: Vec::new() };
    let device = PnioDevice::new(
        vec![0u8; 20],
        [0x10; 16],
        [0x20; 16],
        0xc004,
        [0xAB, 0xCD, 0x01, 0x02, 0x03],
        0xc0a80001,
        transport,
        0,
        1,
        0x04,
        80,
        81,
        String::from("pressure sensor"),
    );
    worker.store.push(StoreEntry {
        key,
        device,
        commands: vec![HartCommand {
            number: 48,
            data: None,
        }],
    });

    let mut sink = RecordingSink {
        messages: Vec::new(),
    };
    worker.read(&mut sink);

    assert_eq!(sink.messages.len(), 1);
    let message = &sink.messages[0];
    assert_eq!(message.0, key);
    assert_eq!(message.1, "pressure sensor");
    assert_eq!(message.2, 48);
    assert_eq!(message.3, 4);
    assert_eq!(message.4[0..4], [0x00, 0x40, 0xAA, 0xBB]);
}

#[test]
fn read_round_bootstraps_unknown_addresses_without_emitting() {
    let mut worker: Worker<HappyTransport> = Worker::new();
    let configs = vec![sample_config(0xc0a80001)];
    worker.evaluate(0xc0a80064, &configs);
    assert_eq!(worker.store.len(), 1);

    let mut sink = RecordingSink {
        messages: Vec::new(),
    };
    worker.read(&mut sink);

    // The first round only performed the command-0 bootstrap.
    assert_eq!(sink.messages.len(), 0);
    assert_ne!(worker.store[0].device.device_id, [0u8; 5]);

    // The next round issues the configured command and emits.
    worker.read(&mut sink);
    assert_eq!(sink.messages.len(), 1);
    assert_eq!(sink.messages[0].2, 48);
}

#[test]
fn lookup_gives_up_when_no_entry_matches() {
    let mut client = LookupClient::new();
    let result: Result<PnioDevice<HappyTransport>, LookupError> = client.lookup(
        0xc0a80064,
        &b"some other module".to_vec(),
        0xc0a80001,
        34964,
        0,
        1,
        80,
        81,
        &String::from("pressure sensor"),
    );
    match result {
        Err(LookupError::Exhausted(key)) => {
            // The error names the device that could not be found.
            assert_eq!(
                key,
                DeviceKey {
                    ip: 0xc0a80001,
                    slot: 0,
                    subslot: 1
                }
            );
        }
        _ => panic!("expected an exhausted lookup"),
    }
    assert_eq!(client.dcerpc_seq_num, 10);
}

#[test]
fn lookup_finds_device_by_annotation() {
    let mut client = LookupClient::new();
    let result: Result<PnioDevice<HappyTransport>, LookupError> = client.lookup(
        0xc0a80064,
        &b"6ES7 155-6AU01-0BN0".to_vec(),
        0xc0a80001,
        34964,
        0,
        1,
        80,
        81,
        &String::from("pressure sensor"),
    );
    let device = result.unwrap();
    assert_eq!(device.dcerpc_seq_num, 0);
    assert_eq!(device.pnio_seq_num, 0);
    assert_eq!(device.device_id, [0u8; 5]);
    assert_eq!(device.slot_num, 0);
    assert_eq!(device.subslot_num, 1);
    assert_eq!(device.data_ready_flag, 0x04);
    // The discovered port is the one of the last UDP floor.
    assert_eq!(device.port, 0xc004);
    // The handle echoes the server's.
    assert_eq!(
        hex::encode(&device.handle),
        "0000000029000000000000108000ec1c5d4d5497"
    );
    assert_eq!(
        uuid::Uuid::from_bytes(device.object_uuid),
        uuid::Uuid::parse_str("dea00000-6c97-11d1-8271-00010313002a").unwrap()
    );
    assert_eq!(
        uuid::Uuid::from_bytes(device.interface_uuid),
        uuid::Uuid::parse_str("dea00001-6c97-11d1-8271-00a02442df7d").unwrap()
    );
}

/// A transport whose endpoint mapper always answers with an entry whose
/// object UUID is all zero.
struct ZeroObjectTransport;

impl TransportClient for ZeroObjectTransport {
    fn bind(_src_ip: u32, _dst_ip: u32, _dst_port: u16) -> Result<Self, TransportError> {
        Ok(ZeroObjectTransport)
    }

    fn send(&mut self, _data: &Vec<u8>) -> Result<usize, TransportError> {
        Ok(0)
    }

    fn receive(&mut self) -> Result<Vec<u8>, TransportError> {
        // Handle, entry count, max count, offset, actual count, an
        // all-zero object UUID, and a floorless tower.
        let mut stub = vec![0u8; 20];
        stub.extend_from_slice(&1u32.to_le_bytes());
        stub.extend_from_slice(&1u32.to_le_bytes());
        stub.extend_from_slice(&0u32.to_le_bytes());
        stub.extend_from_slice(&1u32.to_le_bytes());
        stub.extend_from_slice(&[0u8; 16]);
        stub.extend_from_slice(&[0u8; 4]); // referent id
        stub.extend_from_slice(&0u32.to_le_bytes()); // annotation offset
        stub.extend_from_slice(&0u32.to_le_bytes()); // annotation length
        stub.extend_from_slice(&0u32.to_le_bytes()); // length1
        stub.extend_from_slice(&0u32.to_le_bytes()); // length2
        stub.extend_from_slice(&0u16.to_le_bytes()); // no floors
        Ok(wrap_dcerpc(stub))
    }

    fn update_dest(&mut self, _dst_ip: u32, _dst_port: u16) -> Result<(), TransportError> {
        Ok(())
    }

    fn get_dst_conn_details(&self) -> Result<(u32, u16), TransportError> {
        Ok((0, 0))
    }

    fn wait_before_retry(&mut self) {}

    fn debug(&self) -> String {
        String::from("zero object")
    }
}

#[test]
fn lookup_skips_entries_with_zero_object() {
    let mut client = LookupClient::new();
    let result: Result<PnioDevice<ZeroObjectTransport>, LookupError> = client.lookup(
        0xc0a80064,
        &b"6ES7 155-6AU01-0BN0".to_vec(),
        0xc0a80001,
        34964,
        0,
        1,
        80,
        81,
        &String::from("pressure sensor"),
    );
    // The zero object marks a non-PNIO entry: every attempt skips it
    // and no device is created.
    assert!(matches!(result, Err(LookupError::Exhausted(_))));
}
