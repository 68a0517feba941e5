//! Device-session tests against scripted transports: the command-0
//! bootstrap, sequence-counter behaviour, and the failure paths.

use pnio_hart::device::pnio_device::PnioDevice;
use pnio_hart::error::{SessionError, TransportError};
use pnio_hart::protocol::constant::{BlockHeaderType, InterfaceVersion, OpNum, PacketType};
use pnio_hart::protocol::dcerpc::DceRpcPacket;
use pnio_hart::protocol::packet::Packet;
use pnio_hart::protocol::pnio_header::PnioHeader;
use pnio_hart::protocol::pnio_header_iod_res::IodRes;
use pnio_hart::transport::transport_client::TransportClient;

/// Builds a DCE/RPC reply whose stub is the given envelope bytes.
fn wrap_dcerpc(stub: Vec<u8>) -> Vec<u8> {
    DceRpcPacket::new(
        PacketType::Response,
        [0u8; 16],
        [0u8; 16],
        InterfaceVersion::ReadWrite,
        [0u8; 16],
        0,
        OpNum::Read,
        stub,
    )
    .concat()
}

/// Assembles a response envelope by hand: status, the four counts, the
/// block, and optional record data.
fn response_envelope(status: [u8; 4], block: Vec<u8>, record: &[u8]) -> Vec<u8> {
    let mut v = Vec::new();
    let args_length = (block.len() + record.len()) as u32;
    v.extend_from_slice(&status);
    v.extend_from_slice(&args_length.to_le_bytes());
    v.extend_from_slice(&args_length.to_le_bytes());
    v.extend_from_slice(&0u32.to_le_bytes());
    v.extend_from_slice(&args_length.to_le_bytes());
    v.extend_from_slice(&block);
    v.extend_from_slice(record);
    v
}

fn write_res(status: [u8; 4]) -> Vec<u8> {
    let block = IodRes::new(
        BlockHeaderType::IodWriteResType,
        0,
        [0u8; 16],
        0,
        1,
        80,
        status,
        0,
    )
    .concat();
    wrap_dcerpc(response_envelope(status, block, &[]))
}

fn read_res(record: &[u8]) -> Vec<u8> {
    let block = IodRes::new(
        BlockHeaderType::IodReadResType,
        0,
        [0u8; 16],
        0,
        1,
        81,
        [0u8; 4],
        record.len() as u32,
    )
    .concat();
    wrap_dcerpc(response_envelope([0u8; 4], block, record))
}

/// A command-0 record: data-ready flag, the device-type bytes at offsets
/// 9 and 10, the identity bytes at offsets 17 to 19.
fn bootstrap_record() -> Vec<u8> {
    let mut record = vec![0u8; 20];
    record[0] = 0x04;
    record[9] = 0xAB;
    record[10] = 0xCD;
    record[17] = 0x01;
    record[18] = 0x02;
    record[19] = 0x03;
    record
}

/// A transport that answers writes with a zero-status write response and
/// reads with a scripted sequence of records.
struct ScriptedTransport {
    records: Vec<Vec<u8>>,
    next_record: usize,
    write_status: [u8; 4],
    sent: Vec<Vec<u8>>,
}

impl ScriptedTransport {
    fn with_records(records: Vec<Vec<u8>>) -> Self {
        ScriptedTransport {
            records,
            next_record: 0,
            write_status: [0u8; 4],
            sent: Vec::new(),
        }
    }
}

impl TransportClient for ScriptedTransport {
    fn bind(_src_ip: u32, _dst_ip: u32, _dst_port: u16) -> Result<Self, TransportError> {
        Ok(ScriptedTransport::with_records(Vec::new()))
    }

    fn send(&mut self, data: &Vec<u8>) -> Result<usize, TransportError> {
        self.sent.push(data.clone());
        Ok(data.len())
    }

    fn receive(&mut self) -> Result<Vec<u8>, TransportError> {
        // The last sent packet tells a write from a read apart by its
        // opnum at offset 68.
        let last = self.sent.last().expect("receive before send");
        let opnum = u16::from_le_bytes([last[68], last[69]]);
        if opnum == 3 {
            return Ok(write_res(self.write_status));
        }
        if opnum == 0 {
            return Ok(vec![0u8; 4]);
        }
        let i = self.next_record.min(self.records.len() - 1);
        self.next_record += 1;
        Ok(read_res(&self.records[i]))
    }

    fn update_dest(&mut self, _dst_ip: u32, _dst_port: u16) -> Result<(), TransportError> {
        Ok(())
    }

    fn get_dst_conn_details(&self) -> Result<(u32, u16), TransportError> {
        Ok((0xc0a80001, 0x8892))
    }

    fn wait_before_retry(&mut self) {}

    fn debug(&self) -> String {
        String::from("scripted")
    }
}

fn make_device(transport: ScriptedTransport, device_id: [u8; 5]) -> PnioDevice<ScriptedTransport> {
    PnioDevice::new(
        vec![0u8; 20],
        [0x10; 16],
        [0x20; 16],
        0x8892,
        device_id,
        0xc0a80001,
        transport,
        0,
        1,
        0x04,
        80,
        81,
        String::from("pressure sensor"),
    )
}

#[test]
fn command0_bootstrap_sets_device_id() {
    let transport = ScriptedTransport::with_records(vec![bootstrap_record()]);
    let mut device = make_device(transport, [0u8; 5]);

    device.send_common_write_req(80, 0, None).unwrap();
    let result = device.send_common_read_req(81, 0).unwrap();

    // The first poll consumed the ready record to learn the address;
    // the second returned the record's payload.
    assert_eq!(device.device_id, [0xAB, 0xCD, 0x01, 0x02, 0x03]);
    assert_eq!(result.0, bootstrap_record()[9]);
    assert_eq!(result.1, bootstrap_record()[10..].to_vec());
    assert_eq!(device.dcerpc_seq_num, 2);
    assert_eq!(device.pnio_seq_num, 2);
}

#[test]
fn sequence_numbers_increase_by_one_per_read_attempt() {
    let transport = ScriptedTransport::with_records(vec![bootstrap_record()]);
    let mut device = make_device(transport, [0u8; 5]);

    device.send_common_write_req(80, 0, None).unwrap();
    device.send_common_read_req(81, 0).unwrap();

    let mut read_seqs = Vec::new();
    for packet in &device.transport_client.sent {
        let opnum = u16::from_le_bytes([packet[68], packet[69]]);
        if opnum == 2 {
            read_seqs.push(u32::from_le_bytes([
                packet[64], packet[65], packet[66], packet[67],
            ]));
        }
    }
    // Every read attempt carries the next DCE/RPC sequence number.
    assert_eq!(read_seqs, vec![1, 2]);
}

#[test]
fn long_commands_after_bootstrap_use_long_frames() {
    let record = {
        let mut r = vec![0u8; 16];
        r[0] = 0x04;
        r[9] = 6;
        r
    };
    let transport = ScriptedTransport::with_records(vec![record.clone()]);
    let mut device = make_device(transport, [0xAB, 0xCD, 0x01, 0x02, 0x03]);

    device.send_common_write_req(80, 9, None).unwrap();
    let (length, bytes) = device.send_common_read_req(81, 9).unwrap();
    assert_eq!(length, 6);
    assert_eq!(bytes, record[10..].to_vec());

    // The write request carried the long frame with the device address.
    let write_packet = &device.transport_client.sent[0];
    let frame_start = 80 + 20 + 64;
    assert_eq!(
        write_packet[frame_start..frame_start + 10],
        [0x00, 0x05, 0x82, 0xAB, 0xCD, 0x01, 0x02, 0x03, 0x09, 0x01]
    );
}

#[test]
fn read_not_ready_after_ten_polls() {
    let stale = vec![0u8; 16]; // first byte is not the ready flag
    let transport = ScriptedTransport::with_records(vec![stale]);
    let mut device = make_device(transport, [0xAB, 0xCD, 0x01, 0x02, 0x03]);

    let result = device.send_common_read_req(81, 9);
    assert!(matches!(result, Err(SessionError::ReadNotReady)));
    assert_eq!(device.dcerpc_seq_num, 10);
    assert_eq!(device.pnio_seq_num, 10);
}

#[test]
fn nonzero_write_status_is_reported() {
    let mut transport = ScriptedTransport::with_records(vec![]);
    transport.write_status = [0xde, 0x00, 0x00, 0x81];
    let mut device = make_device(transport, [0xAB, 0xCD, 0x01, 0x02, 0x03]);

    let result = device.send_common_write_req(80, 9, None);
    assert!(matches!(
        result,
        Err(SessionError::PnioStatus([0xde, 0x00, 0x00, 0x81]))
    ));
}

#[test]
fn connect_req_succeeds_on_any_reply() {
    let transport = ScriptedTransport::with_records(vec![]);
    let mut device = make_device(transport, [0u8; 5]);
    let before = device.dcerpc_seq_num;
    device.connect_req().unwrap();
    assert_eq!(device.dcerpc_seq_num, before);
    assert_eq!(device.pnio_seq_num, 0);
    // The connect request went out with the connect opnum.
    let packet = &device.transport_client.sent[0];
    assert_eq!(u16::from_le_bytes([packet[68], packet[69]]), 0);
}

/// A transport whose replies are unparseable.
struct GarbageTransport;

impl TransportClient for GarbageTransport {
    fn bind(_src_ip: u32, _dst_ip: u32, _dst_port: u16) -> Result<Self, TransportError> {
        Ok(GarbageTransport)
    }

    fn send(&mut self, _data: &Vec<u8>) -> Result<usize, TransportError> {
        Ok(0)
    }

    fn receive(&mut self) -> Result<Vec<u8>, TransportError> {
        Ok(vec![0xff; 30])
    }

    fn update_dest(&mut self, _dst_ip: u32, _dst_port: u16) -> Result<(), TransportError> {
        Ok(())
    }

    fn get_dst_conn_details(&self) -> Result<(u32, u16), TransportError> {
        Ok((0, 0))
    }

    fn wait_before_retry(&mut self) {}

    fn debug(&self) -> String {
        String::from("garbage")
    }
}

/// A transport that fails every send.
struct BrokenTransport;

impl TransportClient for BrokenTransport {
    fn bind(_src_ip: u32, _dst_ip: u32, _dst_port: u16) -> Result<Self, TransportError> {
        Ok(BrokenTransport)
    }

    fn send(&mut self, _data: &Vec<u8>) -> Result<usize, TransportError> {
        Err(TransportError)
    }

    fn receive(&mut self) -> Result<Vec<u8>, TransportError> {
        Err(TransportError)
    }

    fn update_dest(&mut self, _dst_ip: u32, _dst_port: u16) -> Result<(), TransportError> {
        Ok(())
    }

    fn get_dst_conn_details(&self) -> Result<(u32, u16), TransportError> {
        Ok((0, 0))
    }

    fn wait_before_retry(&mut self) {}

    fn debug(&self) -> String {
        String::from("broken")
    }
}

#[test]
fn malformed_replies_surface_as_decode_errors() {
    let mut device = pnio_hart::device::pnio_device::PnioDevice::new(
        vec![0u8; 20],
        [0x10; 16],
        [0x20; 16],
        0x8892,
        [0xAB, 0xCD, 0x01, 0x02, 0x03],
        0xc0a80001,
        GarbageTransport,
        0,
        1,
        0x04,
        80,
        81,
        String::from("pressure sensor"),
    );
    assert!(matches!(
        device.send_common_write_req(80, 9, None),
        Err(SessionError::Decode)
    ));
    assert!(matches!(
        device.send_common_read_req(81, 9),
        Err(SessionError::Decode)
    ));
}

#[test]
fn transport_failures_surface_as_transport_errors() {
    let mut device = pnio_hart::device::pnio_device::PnioDevice::new(
        vec![0u8; 20],
        [0x10; 16],
        [0x20; 16],
        0x8892,
        [0xAB, 0xCD, 0x01, 0x02, 0x03],
        0xc0a80001,
        BrokenTransport,
        0,
        1,
        0x04,
        80,
        81,
        String::from("pressure sensor"),
    );
    assert!(matches!(
        device.connect_req(),
        Err(SessionError::Transport)
    ));
    assert!(matches!(
        device.send_common_write_req(80, 9, None),
        Err(SessionError::Transport)
    ));
    assert!(matches!(
        device.send_common_read_req(81, 9),
        Err(SessionError::Transport)
    ));
}
