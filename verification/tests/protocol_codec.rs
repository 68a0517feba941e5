//! Wire-codec tests: byte-exact encodings against captured packets, and
//! decode behaviour on the captured replies.

use pnio_hart::protocol::constant::{InterfaceVersion, OpNum, PacketType};
use pnio_hart::protocol::dcerpc::DceRpcPacket;
use pnio_hart::protocol::dcerpc_epm_req::DceRpcEpmRequest;
use pnio_hart::protocol::dcerpc_epm_res::{DceRpcEpmResponse, TowerPointer};
use pnio_hart::protocol::hart_command::HartCommand;
use pnio_hart::protocol::packet::Packet;
use pnio_hart::protocol::pnio::Pnio;
use pnio_hart::protocol::pnio_header::{PnioHeader, PnioHeaderEnum};
use pnio_hart::protocol::constant::BlockHeaderType;
use pnio_hart::protocol::pnio_header_arblock_req::ArBlockReq;
use pnio_hart::protocol::pnio_header_iod_req::IodReq;
use pnio_hart::protocol::pnio_header_iod_res::IodRes;
use pnio_hart::protocol::util::generate_xor_checksum;
use uuid::Uuid;

fn uuid_bytes(s: &str) -> [u8; 16] {
    *Uuid::parse_str(s).unwrap().as_bytes()
}

#[test]
fn create_write_request_dcerpc_packet_should_ok() {
    let packet_type = PacketType::Request;
    let obj_uuid = uuid_bytes("dea00000-6c97-11d1-8271-00010313002a");
    let interface = uuid_bytes("dea00001-6c97-11d1-8271-00a02442df7d");
    let activity = uuid_bytes("401ca514-11a1-1e1e-9ec0-080027e3f4b9");
    let seq_num = 4;
    let opnum = OpNum::Write;

    let stub_data = "47000000470000004700\
                     00000000000047000000\
                     0008003c01000003b63d\
                     bc71b5459246b8c50761\
                     aeb88cde000000000001\
                     00010000005000000007\
                     00000000000000000000\
                     00000000000000000000\
                     00000000001402800000\
                     82";

    let payload = hex::decode(stub_data).unwrap();

    let dcerpc_packet = DceRpcPacket::new(
        packet_type,
        obj_uuid,
        interface,
        InterfaceVersion::ReadWrite,
        activity,
        seq_num,
        opnum,
        payload,
    );

    let target_bytes = "04002000100000000000\
                  a0de976cd11182710001\
                  0313002a0100a0de976c\
                  d111827100a02442df7d\
                  14a51c40a1111e1e9ec0\
                  080027e3f4b900000000\
                  01000000040000000300\
                  ffffffff5b0000000000\
                  47000000470000004700\
                  00000000000047000000\
                  0008003c01000003b63d\
                  bc71b5459246b8c50761\
                  aeb88cde000000000001\
                  00010000005000000007\
                  00000000000000000000\
                  00000000000000000000\
                  00000000001402800000\
                  82";
    let target = hex::decode(target_bytes).unwrap();
    let bytes = dcerpc_packet.concat();

    assert_eq!(target, bytes);
    // The fragment length at offset 74 is the stub length, 91, in
    // little-endian order.
    assert_eq!([bytes[74], bytes[75]], (91 as u16).to_le_bytes());
}

#[test]
fn dcerpc_header_round_trips() {
    let packet = DceRpcPacket::new(
        PacketType::Request,
        uuid_bytes("dea00000-6c97-11d1-8271-00010313002a"),
        uuid_bytes("dea00001-6c97-11d1-8271-00a02442df7d"),
        InterfaceVersion::ReadWrite,
        uuid_bytes("401ca514-11a1-1e1e-9ec0-080027e3f4b9"),
        7,
        OpNum::Read,
        vec![0xde, 0xad, 0xbe, 0xef],
    );
    let bytes = packet.concat();
    let decoded = DceRpcPacket::decode(&bytes).unwrap();
    assert_eq!(decoded.packet_type, packet.packet_type);
    assert_eq!(decoded.obj_uuid, packet.obj_uuid);
    assert_eq!(decoded.interface, packet.interface);
    assert_eq!(decoded.activity, packet.activity);
    assert_eq!(decoded.interface_ver, packet.interface_ver);
    assert_eq!(decoded.seq_num, packet.seq_num);
    assert_eq!(decoded.opnum, packet.opnum);
    assert_eq!(decoded.data, packet.data);
    assert_eq!(
        u16::from_le_bytes([bytes[74], bytes[75]]) as usize,
        packet.data.len()
    );
}

#[test]
fn dcerpc_decode_rejects_short_and_unknown() {
    assert!(DceRpcPacket::decode(&vec![0x04; 79]).is_err());
    let mut bytes = vec![0u8; 80];
    bytes[1] = 0x01; // not a known packet type
    assert!(DceRpcPacket::decode(&bytes).is_err());
}

#[test]
pub fn construct_packet_successfully() {
    let handle = [0x00; 20];
    let dcerpc_epm_request = DceRpcEpmRequest::new(handle);

    let result = dcerpc_epm_request.concat();
    let target = hex::decode(
        "00000000010000000000\
             00000000000000000000\
             00000000020000000000\
             00000000000000000000\
             00000000000000000100\
             00000000000000000000\
             00000000000000000000\
             000001000000",
    )
    .unwrap();
    assert_eq!(result, target);
}

fn get_et200sp_response_packet() -> Vec<u8> {
    let hex_string = "00000000290000000000\
                      00108000ec1c5d4d5497\
                      01000000010000000000\
                      0000010000000000a0de\
                      976cd111827100010313\
                      002a0300000000000000\
                      40000000455432303053\
                      50202020202020202020\
                      20202020202020202020\
                      36455337203135352d36\
                      415530312d30424e3020\
                      20202020203420562020\
                      34202032202030004b00\
                      00004b00000005001300\
                      0d0100a0de976cd11182\
                      7100a02442df7d010002\
                      00000013000d045d888a\
                      eb1cc9119fe808002b10\
                      48600200020000000100\
                      0a020000000100080200\
                      c0040100090400000000\
                      007000000000";
    hex::decode(hex_string).unwrap()
}

fn get_empty_response_packet() -> Vec<u8> {
    let hex_string = "00000000000000000000\
                      00000000000000000000\
                      00000000010000000000\
                      000000000000d6a0c916";

    hex::decode(hex_string).unwrap()
}

#[test]
fn try_from_tower_pointer_should_return_correctly() {
    let full_packet = get_et200sp_response_packet();

    let tower_pointer_packet = get_et200sp_response_packet()[52..].to_vec();
    let tower_pointer = TowerPointer::decode(&tower_pointer_packet).unwrap();

    assert_eq!(5, tower_pointer.floors.len());
    assert_eq!(
        Uuid::parse_str("dea00001-6c97-11d1-8271-00a02442df7d").unwrap(),
        Uuid::from_bytes(tower_pointer.floors[0].uuid.unwrap())
    );

    let dcerpc_epm_response = DceRpcEpmResponse::decode(&full_packet).unwrap();
    assert_eq!(
        "0000000029000000000000108000ec1c5d4d5497",
        hex::encode(&dcerpc_epm_response.handle)
    );

    assert_eq!(
        Uuid::parse_str("dea00000-6c97-11d1-8271-00010313002a").unwrap(),
        Uuid::from_bytes(dcerpc_epm_response.entry.object)
    );
}

#[test]
fn epm_response_floors_carry_port_and_address() {
    let full_packet = get_et200sp_response_packet();
    let response = DceRpcEpmResponse::decode(&full_packet).unwrap();
    let floors = &response.entry.tower_pointer.floors;
    assert_eq!(floors.len(), 5);
    // The fourth floor is the UDP floor with the big-endian port.
    assert!(floors[3].udp_port.is_some());
    assert_eq!(floors[3].udp_port.unwrap(), 0xc004);
    // The annotation names the module.
    let annotation = &response.entry.tower_pointer.annotation;
    let needle = b"6ES7 155-6AU01-0BN0".to_vec();
    assert!(annotation
        .windows(needle.len())
        .any(|w| w == needle.as_slice()));
}

#[test]
// if there is error, just return and ignore this packet
fn test_try_from_dcerpc_epm_response_should_return_error() {
    let full_packet = get_empty_response_packet();

    assert!(DceRpcEpmResponse::decode(&full_packet).is_err());
}

#[test]
fn try_from_pnio_connect_response() {
    let bytes = hex::decode(
        "00000000220000003d00\
         000000000000220000008\
         101001e01000006f4162d\
         be951d4041b5839b57a3b\
         ed95e0001ec1c5d4d5497\
         8892",
    )
    .unwrap();

    let pnio_result = Pnio::decode(&bytes);
    assert_eq!(pnio_result.is_ok(), true);

    let pnio = pnio_result.unwrap();
    if let PnioHeaderEnum::ArBlockRes(pnio_header) = pnio.pnio_header {
        assert_eq!(
            pnio_header.cm_responder_mac_address,
            [0xec, 0x1c, 0x5d, 0x4d, 0x54, 0x97]
        );
    } else {
        panic!("expected an AR block response");
    }
}

#[test]
fn try_from_pnio_read_response() {
    let bytes = hex::decode(
        "0000000030010000300001000000000030010000\
         8009003c01000023f4162dbe951d4041b5839b57\
         a3bed95e000000000001000100000051000000f0\
         0000000000000000000000000000000000000000\
         000000000400068000130000fe2a0b0505030638\
         003fcc78050c0269009e2082082002066cfa00c5\
         ba000000000000009a0000000000000000000000\
         0000000000000000000000000000000000000000\
         0000000000000000000000000000000000000000\
         0000000000000000000000000000000000000000\
         0000000000000000000000000000000000000000\
         0000000000000000000000000000000000000000\
         0000000000000000000000000000000000000000\
         0000000000000000000000000000000000000000\
         0000000000000000000000000000000000000000\
         0000000000000000000000000000000000000000\
         00000000",
    )
    .unwrap();

    let pnio_result = Pnio::decode(&bytes);
    assert_eq!(pnio_result.is_ok(), true);

    let pnio = pnio_result.unwrap();
    if let PnioHeaderEnum::IodRes(pnio_header) = pnio.pnio_header {
        assert_eq!(
            Uuid::from_slice(&pnio_header.ar_uuid).unwrap(),
            Uuid::parse_str("f4162dbe951d4041b5839b57a3bed95e").unwrap(),
        );
    } else {
        panic!("expected an IOD response header");
    }
}

#[test]
fn try_from_pnio_write_response() {
    let bytes = hex::decode(
        "00000000400000004b00\
        00000000000040000000\
        8008003c01000024f416\
        2dbe951d4041b5839b57\
        a3bed95e000000000001\
        00010000005000000000\
        00000000000000000000\
        00000000000000000000\
        00000000",
    )
    .unwrap();

    let pnio_result = Pnio::decode(&bytes);
    assert_eq!(pnio_result.is_ok(), true);

    let pnio = pnio_result.unwrap();
    if let PnioHeaderEnum::IodRes(pnio_header) = pnio.pnio_header {
        assert_eq!(pnio_header.status, [0x00; 4]);
        let header_bytes = pnio_header.concat();
        assert_eq!(u16::from_be_bytes([header_bytes[2], header_bytes[3]]), 60);
        assert_eq!(
            Uuid::from_slice(&pnio_header.ar_uuid).unwrap(),
            Uuid::parse_str("f4162dbe-951d-4041-b583-9b57a3bed95e").unwrap()
        )
    } else {
        panic!("expected an IOD response header");
    }
}

#[test]
pub fn generate_xor_checksum_should_ok() {
    let bytes = vec![0x02, 0x80, 0x00, 0x00];
    let result = generate_xor_checksum(&bytes);

    assert_eq!(result, 0x82);
}

#[test]
fn hart_short_frame_for_bootstrap_command() {
    // Command 0 with an unset long address uses the short frame; the
    // checksum is the XOR of the bytes from the delimiter on.
    let frame = HartCommand::construct_write_request([0x00; 5], 0, None);
    assert_eq!(frame, vec![0x00, 0x14, 0x02, 0x00, 0x00, 0x00, 0x02]);
}

#[test]
fn hart_long_frame_uses_device_id() {
    let frame = HartCommand::construct_write_request([0xAB, 0xCD, 0x01, 0x02, 0x03], 9, None);
    let checksum = 0x82 ^ 0xABu8 ^ 0xCD ^ 0x01 ^ 0x02 ^ 0x03 ^ 0x09 ^ 0x01;
    assert_eq!(
        frame,
        vec![0x00, 0x05, 0x82, 0xAB, 0xCD, 0x01, 0x02, 0x03, 0x09, 0x01, checksum]
    );
}

#[test]
fn hart_long_frame_appends_payload() {
    let payload = vec![0x10, 0x20];
    let frame =
        HartCommand::construct_write_request([0x01, 0x02, 0x03, 0x04, 0x05], 48, Some(&payload));
    assert_eq!(frame[0..3], [0x00, 0x05, 0x82]);
    assert_eq!(frame[8], 48);
    assert_eq!(frame[9], 0x01);
    assert_eq!(frame[10..12], [0x10, 0x20]);
    let xor = frame[2..frame.len() - 1]
        .iter()
        .fold(0u8, |acc, b| acc ^ b);
    assert_eq!(*frame.last().unwrap(), xor);
}

#[test]
fn arblock_req_encoding_round_trips() {
    let ar_uuid = uuid_bytes("f4162dbe-951d-4041-b583-9b57a3bed95e");
    let obj_uuid = uuid_bytes("dea00000-6c97-11d1-8271-00010313002a");
    let block = ArBlockReq::new(ar_uuid, 1, obj_uuid);
    let bytes = block.concat();
    assert_eq!(bytes.len(), 61);
    let decoded = ArBlockReq::decode(&bytes).unwrap();
    assert_eq!(decoded.ar_uuid, ar_uuid);
    assert_eq!(decoded.session_key, 1);
    assert_eq!(decoded.cm_initiator_obj_uuid, obj_uuid);
}

#[test]
fn pnio_envelope_counts_follow_the_block() {
    let ar_uuid = [0x11; 16];
    let read_header = IodReq::new(BlockHeaderType::IodReadReqType, 3, ar_uuid, 0, 1, 81, 65520);
    let pnio = Pnio::new(None, PnioHeaderEnum::IodReq(read_header), None);
    assert_eq!(pnio.max_count, 65584);
    assert_eq!(pnio.actual_count, 64);
    assert_eq!(pnio.args_length, 64);
    assert_eq!(pnio.args_max, Some(65584));
    let encoded = pnio.concat();
    assert_eq!(encoded.len(), 84);

    let frame = vec![0u8; 7];
    let write_header =
        IodReq::new(BlockHeaderType::IodWriteReqType, 4, ar_uuid, 0, 1, 80, frame.len() as u32);
    let pnio = Pnio::new(None, PnioHeaderEnum::IodReq(write_header), Some(frame));
    assert_eq!(pnio.max_count, 71);
    assert_eq!(pnio.actual_count, 71);
    assert_eq!(pnio.args_length, 71);
    assert_eq!(pnio.args_max, Some(71));
    let encoded = pnio.concat();
    assert_eq!(encoded.len(), 91);
}

#[test]
fn iod_write_response_status_round_trips() {
    // The status sits at block offsets 44 to 47, after the two
    // additional values; encode and decode agree on it.
    let block = IodRes::new(
        BlockHeaderType::IodWriteResType,
        3,
        [0x11; 16],
        0,
        1,
        80,
        [0xde, 0x00, 0x00, 0x81],
        0,
    );
    let bytes = block.concat();
    assert_eq!(bytes[44..48], [0xde, 0x00, 0x00, 0x81]);
    let decoded = IodRes::decode(&bytes).unwrap();
    assert_eq!(decoded.status, [0xde, 0x00, 0x00, 0x81]);
    assert_eq!(decoded.seq_num, 3);
    assert_eq!(decoded.ar_uuid, [0x11; 16]);
}

#[test]
fn pnio_decode_rejects_request_blocks_and_short_buffers() {
    assert!(Pnio::decode(&vec![0u8; 10]).is_err());
    // A well-formed write *request* is not a reply and is refused.
    let header = IodReq::new(BlockHeaderType::IodWriteReqType, 1, [0; 16], 0, 1, 80, 7);
    let pnio = Pnio::new(None, PnioHeaderEnum::IodReq(header), Some(vec![0u8; 7]));
    let encoded = pnio.concat();
    assert!(Pnio::decode(&encoded).is_err());
}
