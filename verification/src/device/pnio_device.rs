//! The per-device PNIO session: owns the AR and activity UUIDs, the two
//! sequence counters, the record addressing and the discovered HART long
//! address, and drives the write-then-poll record exchange.

use vstd::prelude::*;
use crate::device::metadata::Metadata;
use crate::device::spec_comm_status::FieldDeviceCommStatus;
use crate::device::spec_status::FieldDeviceStatus;
use crate::error::SessionError;
use crate::protocol::constant::{BlockHeaderType, InterfaceVersion, OpNum, PacketType};
use crate::protocol::dcerpc::DceRpcPacket;
use crate::protocol::hart_command::{is_zero_device_id, spec_zero_device_id, HartCommand};
use crate::protocol::packet::Packet;
use crate::protocol::pnio::Pnio;
use crate::protocol::pnio_header::{PnioHeader, PnioHeaderEnum};
use crate::protocol::pnio_header_arblock_req::ArBlockReq;
use crate::protocol::pnio_header_iod_req::IodReq;
use crate::transport::transport_client::TransportClient;

verus! {

/// How often a not-ready response record is polled again.
pub const READ_RETRY_MAX: u8 = 10;

/// A connected PNIO device. `device_id` starts all-zero and is set once
/// from a HART command-0 response; while it is zero, the engine only
/// issues command 0 in short-address framing.
pub struct PnioDevice<T: TransportClient> {
    pub handle: Vec<u8>,
    pub object_uuid: [u8; 16],
    pub interface_uuid: [u8; 16],
    pub device_id: [u8; 5],
    pub ip_address: u32,
    pub port: u16,
    pub comm_status: FieldDeviceCommStatus,
    pub status: FieldDeviceStatus,
    pub metadata: Metadata,
    pub transport_client: T,
    pub ar_uuid: [u8; 16],
    pub activity: [u8; 16],
    pub dcerpc_seq_num: u32,
    pub pnio_seq_num: u16,
    pub slot_num: u16,
    pub subslot_num: u16,
    pub data_ready_flag: u8,
    pub request_data_record_number: u16,
    pub response_data_record_number: u16,
    pub hart_device_name: String,
}

/// The length and payload of a ready response record: its `data_length`
/// byte at offset 9 and everything from offset 10 on, or nothing when
/// the record is too short or its first byte is not the ready flag.
pub open spec fn spec_ready_record(record: Seq<u8>, flag: u8) -> Option<(u8, Seq<u8>)> {
    if record.len() >= 10 && record[0] == flag {
        Some((record[9], record.subrange(10, record.len() as int)))
    } else {
        None
    }
}

/// The HART long address carried in a command-0 response record: two
/// device-type bytes at offsets 9 and 10, three identity bytes at
/// offsets 17 to 19.
pub open spec fn spec_record_device_id(record: Seq<u8>) -> Seq<u8>
    recommends
        record.len() >= 20,
{
    seq![record[9], record[10], record[17], record[18], record[19]]
}

/// Parses a ready response record, as `spec_ready_record` states.
pub fn parse_ready_record(record: &Vec<u8>, flag: u8) -> (r: Option<(u8, Vec<u8>)>)
    ensures
        r is Some <==> spec_ready_record(record@, flag) is Some,
        r matches Some((len, data)) ==> spec_ready_record(record@, flag) == Some((len, data@)),
{
    let n: usize = record.len();
    if n >= 10 && record[0] == flag {
        let data_length = record[9];
        let rest = crate::protocol::wire::copy_range(record, 10, n - 10);
        Some((data_length, rest))
    } else {
        None
    }
}

/// Extracts the device long address from a command-0 response record,
/// or nothing when the record is too short to hold it.
pub fn extract_device_id(record: &Vec<u8>) -> (r: Option<[u8; 5]>)
    ensures
        r is Some <==> record@.len() >= 20,
        r matches Some(id) ==> id@ == spec_record_device_id(record@),
{
    let n: usize = record.len();
    if n >= 20 {
        let id: [u8; 5] = [record[9], record[10], record[17], record[18], record[19]];
        assert(id@ =~= spec_record_device_id(record@));
        Some(id)
    } else {
        None
    }
}

impl<T: TransportClient> PnioDevice<T> {
    /// The fields that name and address the device, which no session
    /// operation changes.
    pub open spec fn spec_same_identity(a: Self, b: Self) -> bool {
        &&& a.handle == b.handle
        &&& a.object_uuid == b.object_uuid
        &&& a.interface_uuid == b.interface_uuid
        &&& a.ip_address == b.ip_address
        &&& a.port == b.port
        &&& a.slot_num == b.slot_num
        &&& a.subslot_num == b.subslot_num
        &&& a.data_ready_flag == b.data_ready_flag
        &&& a.request_data_record_number == b.request_data_record_number
        &&& a.response_data_record_number == b.response_data_record_number
        &&& a.hart_device_name == b.hart_device_name
    }

    /// Everything reconciliation must keep of a stored device: all its
    /// fields except the two record numbers, which configuration may
    /// retarget in place.
    pub open spec fn spec_same_session(a: Self, b: Self) -> bool {
        &&& a.handle == b.handle
        &&& a.object_uuid == b.object_uuid
        &&& a.interface_uuid == b.interface_uuid
        &&& a.device_id == b.device_id
        &&& a.ip_address == b.ip_address
        &&& a.port == b.port
        &&& a.comm_status == b.comm_status
        &&& a.status == b.status
        &&& a.metadata == b.metadata
        &&& a.transport_client == b.transport_client
        &&& a.ar_uuid == b.ar_uuid
        &&& a.activity == b.activity
        &&& a.dcerpc_seq_num == b.dcerpc_seq_num
        &&& a.pnio_seq_num == b.pnio_seq_num
        &&& a.slot_num == b.slot_num
        &&& a.subslot_num == b.subslot_num
        &&& a.data_ready_flag == b.data_ready_flag
        &&& a.hart_device_name == b.hart_device_name
    }

    pub fn new(
        handle: Vec<u8>,
        object_uuid: [u8; 16],
        interface_uuid: [u8; 16],
        port: u16,
        device_id: [u8; 5],
        ip_address: u32,
        transport_client: T,
        slot_num: u16,
        subslot_num: u16,
        data_ready_flag: u8,
        request_data_record_number: u16,
        response_data_record_number: u16,
        hart_device_name: String,
    ) -> (r: Self)
        ensures
            r.handle == handle,
            r.object_uuid == object_uuid,
            r.interface_uuid == interface_uuid,
            r.port == port,
            r.device_id == device_id,
            r.ip_address == ip_address,
            r.slot_num == slot_num,
            r.subslot_num == subslot_num,
            r.data_ready_flag == data_ready_flag,
            r.request_data_record_number == request_data_record_number,
            r.response_data_record_number == response_data_record_number,
            r.hart_device_name == hart_device_name,
            r.dcerpc_seq_num == 0,
            r.pnio_seq_num == 0,
            r.comm_status == (FieldDeviceCommStatus {
                buffer_overflow: false,
                communication_failure: false,
                longitudinal_parity_error: false,
                framing_error: false,
                overrun_error: false,
                vertical_parity_error: false,
                communication_error: false,
            }),
            r.status == (FieldDeviceStatus {
                primary_variable_out_of_limits: false,
                non_primary_variable_out_of_limits: false,
                loop_current_saturated: false,
                loop_current_fixed: false,
                more_status_available: false,
                cold_start: false,
                configuration_changed: false,
                device_malfunction: false,
            }),
            r.metadata == (Metadata {
                hart_protocol_major_revision: 0,
                device_revision_level: 0,
                software_revision_level: 0,
                number_of_preemble_bytes_in_response: 0,
                configuration_change_counter: 0,
            }),
    {
        PnioDevice {
            handle,
            object_uuid,
            interface_uuid,
            port,
            device_id,
            ip_address,
            ar_uuid: crate::uuid_gen::fresh_uuid(),
            transport_client,
            slot_num,
            subslot_num,
            activity: crate::uuid_gen::fresh_uuid(),
            dcerpc_seq_num: 0,
            pnio_seq_num: 0,
            data_ready_flag,
            request_data_record_number,
            response_data_record_number,
            hart_device_name,
            comm_status: FieldDeviceCommStatus::new(),
            status: FieldDeviceStatus::new(),
            metadata: Metadata {
                hart_protocol_major_revision: 0,
                device_revision_level: 0,
                software_revision_level: 0,
                number_of_preemble_bytes_in_response: 0,
                configuration_change_counter: 0,
            },
        }
    }

    /// Wraps a block in a PNIO envelope; a read request carries no
    /// record data.
    fn construct_pnio_req(&self, is_read: bool, pnio_header: PnioHeaderEnum, data: Option<
        Vec<u8>,
    >) -> (r: Pnio)
        requires
            pnio_header.valid(),
        ensures
            r.status is None,
            r.pnio_header == pnio_header,
            r.pnio_data == if is_read {
                Option::<Vec<u8>>::None
            } else {
                data
            },
            r.args_max == pnio_header.spec_args_max(),
            r.args_length == pnio_header.spec_args_length(),
            r.max_count == pnio_header.spec_max_count(),
            r.actual_count == pnio_header.spec_actual_count(),
    {
        let pnio_data = if is_read {
            None
        } else {
            data
        };
        Pnio::new(None, pnio_header, pnio_data)
    }

    /// Wraps an encoded envelope in a DCE/RPC request carrying the
    /// session's UUIDs, current sequence number and the given opnum.
    fn construct_dcerpc_req(&self, opnum: OpNum, data: Vec<u8>) -> (r: DceRpcPacket)
        ensures
            r.packet_type == PacketType::Request,
            r.obj_uuid@ == crate::protocol::wire::spec_uuid_le(self.object_uuid@),
            r.interface@ == crate::protocol::wire::spec_uuid_le(self.interface_uuid@),
            r.activity@ == crate::protocol::wire::spec_uuid_le(self.activity@),
            r.interface_ver == InterfaceVersion::ReadWrite,
            r.seq_num == self.dcerpc_seq_num,
            r.opnum == opnum,
            r.data == data,
    {
        DceRpcPacket::new(
            PacketType::Request,
            self.object_uuid,
            self.interface_uuid,
            InterfaceVersion::ReadWrite,
            self.activity,
            self.dcerpc_seq_num,
            opnum,
            data,
        )
    }

    /// Builds the IOD header for a record access; without record data
    /// the announced record length is the module's read buffer size.
    fn construct_iod_header_req(&self, is_read: bool, index: u16, data: &Option<Vec<u8>>) -> (r:
        IodReq)
        requires
            data matches Some(d) ==> d@.len() <= 0xffff,
        ensures
            r.block_header_type == if is_read {
                BlockHeaderType::IodReadReqType
            } else {
                BlockHeaderType::IodWriteReqType
            },
            r.seq_num == self.pnio_seq_num,
            r.ar_uuid == self.ar_uuid,
            r.slot_num == self.slot_num,
            r.subslot_num == self.subslot_num,
            r.index == index,
            r.record_data_len == match data {
                Some(d) => d@.len() as u32,
                None => 65520u32,
            },
    {
        let record_data_len: u32 = match data {
            Some(d) => d.len() as u32,
            None => 65520,
        };
        let block_header_type = if is_read {
            BlockHeaderType::IodReadReqType
        } else {
            BlockHeaderType::IodWriteReqType
        };
        IodReq::new(
            block_header_type,
            self.pnio_seq_num,
            self.ar_uuid,
            self.slot_num,
            self.subslot_num,
            index,
            record_data_len,
        )
    }

    /// Advances both sequence counters by one. Every read attempt goes
    /// through this step exactly once, so consecutive attempts carry
    /// DCE/RPC and PNIO sequence numbers that each grow by exactly one.
    pub fn next_request(&mut self)
        requires
            old(self).dcerpc_seq_num < u32::MAX,
            old(self).pnio_seq_num < u16::MAX,
        ensures
            final(self).dcerpc_seq_num == old(self).dcerpc_seq_num + 1,
            final(self).pnio_seq_num == old(self).pnio_seq_num + 1,
            Self::spec_same_identity(*old(self), *final(self)),
            final(self).device_id == old(self).device_id,
            final(self).ar_uuid == old(self).ar_uuid,
            final(self).activity == old(self).activity,
            final(self).transport_client == old(self).transport_client,
            final(self).comm_status == old(self).comm_status,
            final(self).status == old(self).status,
            final(self).metadata == old(self).metadata,
    {
        self.dcerpc_seq_num = self.dcerpc_seq_num + 1;
        self.pnio_seq_num = self.pnio_seq_num + 1;
    }

    /// Establishes the application relation: generates a fresh AR UUID,
    /// sends the connect request, and succeeds when any reply arrives.
    /// Neither sequence counter moves.
    pub fn connect_req(&mut self) -> (r: Result<(), SessionError>)
        ensures
            Self::spec_same_identity(*old(self), *final(self)),
            final(self).device_id == old(self).device_id,
            final(self).activity == old(self).activity,
            final(self).dcerpc_seq_num == old(self).dcerpc_seq_num,
            final(self).pnio_seq_num == old(self).pnio_seq_num,
    {
        let session_key: u16 = 1;
        self.ar_uuid = crate::uuid_gen::fresh_uuid();
        let pnio_header_arblock = ArBlockReq::new(self.ar_uuid, session_key, self.object_uuid);
        let pnio = self.construct_pnio_req(
            false,
            PnioHeaderEnum::ArBlockReq(pnio_header_arblock),
            None,
        );
        let pnio_bytes = pnio.concat();
        let req_dcerpc_packet = self.construct_dcerpc_req(OpNum::Connect, pnio_bytes);
        let request = req_dcerpc_packet.concat();
        match self.transport_client.send(&request) {
            Ok(_) => (),
            Err(_) => {
                return Err(SessionError::Transport);
            },
        }
        match self.transport_client.receive() {
            Ok(_) => (),
            Err(_) => {
                return Err(SessionError::Transport);
            },
        }
        Ok(())
    }

    /// Writes one HART command frame into the request record and checks
    /// the IOD write status. Neither sequence counter moves, and the
    /// device identity and long address stay as they are.
    pub fn send_common_write_req(
        &mut self,
        data_record_num: u16,
        command: u8,
        command_payload: Option<&Vec<u8>>,
    ) -> (r: Result<(), SessionError>)
        requires
            command_payload matches Some(p) ==> p@.len() <= 65000,
        ensures
            Self::spec_same_identity(*old(self), *final(self)),
            final(self).device_id == old(self).device_id,
            final(self).ar_uuid == old(self).ar_uuid,
            final(self).activity == old(self).activity,
            final(self).dcerpc_seq_num == old(self).dcerpc_seq_num,
            final(self).pnio_seq_num == old(self).pnio_seq_num,
    {
        let user_specified_data = HartCommand::construct_write_request(
            self.device_id,
            command,
            command_payload,
        );
        assert(user_specified_data@.len() <= 65011);
        let pnio_data = Some(user_specified_data);
        let iod_write_req_header = self.construct_iod_header_req(
            false,
            data_record_num,
            &pnio_data,
        );
        let pnio = self.construct_pnio_req(
            false,
            PnioHeaderEnum::IodReq(iod_write_req_header),
            pnio_data,
        );
        let pnio_bytes = pnio.concat();
        assert(pnio_bytes@.len() <= 0xffff);
        let req_dcerpc_packet = self.construct_dcerpc_req(OpNum::Write, pnio_bytes);
        let request = req_dcerpc_packet.concat();
        match self.transport_client.send(&request) {
            Ok(_) => (),
            Err(_) => {
                return Err(SessionError::Transport);
            },
        }
        let buffer = match self.transport_client.receive() {
            Ok(b) => b,
            Err(_) => {
                return Err(SessionError::Transport);
            },
        };
        let res_dcerpc_packet = match DceRpcPacket::decode(&buffer) {
            Ok(p) => p,
            Err(_) => {
                return Err(SessionError::Decode);
            },
        };
        let res_pnio_packet = match Pnio::decode(&res_dcerpc_packet.data) {
            Ok(p) => p,
            Err(_) => {
                return Err(SessionError::Decode);
            },
        };
        match res_pnio_packet.status {
            Some(s) => {
                if s[0] == 0 && s[1] == 0 && s[2] == 0 && s[3] == 0 {
                    Ok(())
                } else {
                    Err(SessionError::PnioStatus(s))
                }
            },
            None => Err(SessionError::Decode),
        }
    }

    /// Polls the response record until the data-ready flag appears,
    /// advancing both sequence counters once per attempt. On command 0
    /// with an unset long address the ready record is consumed to learn
    /// the address, and polling continues so the caller observes a
    /// settled value; a read only succeeds once the address is known,
    /// so success on command 0 leaves a non-zero address behind. The
    /// result is the record's data-length byte and everything after the
    /// two HART status bytes' offset.
    #[verifier::loop_isolation(false)]
    pub fn send_common_read_req(&mut self, data_record_number: u16, command: u8) -> (r: Result<
        (u8, Vec<u8>),
        SessionError,
    >)
        requires
            old(self).dcerpc_seq_num + READ_RETRY_MAX <= u32::MAX,
            old(self).pnio_seq_num + READ_RETRY_MAX <= u16::MAX,
        ensures
            Self::spec_same_identity(*old(self), *final(self)),
            final(self).ar_uuid == old(self).ar_uuid,
            final(self).activity == old(self).activity,
            final(self).dcerpc_seq_num - old(self).dcerpc_seq_num == final(self).pnio_seq_num
                - old(self).pnio_seq_num,
            1 <= final(self).dcerpc_seq_num - old(self).dcerpc_seq_num <= READ_RETRY_MAX,
            command != 0 ==> final(self).device_id == old(self).device_id,
            r is Ok && command == 0 ==> !spec_zero_device_id(final(self).device_id@),
    {
        let ghost dcerpc0 = self.dcerpc_seq_num;
        let ghost pnio0 = self.pnio_seq_num;
        let ghost start = *self;
        let mut retry: u8 = 0;
        while retry < READ_RETRY_MAX
            invariant
                retry <= READ_RETRY_MAX,
                dcerpc0 + READ_RETRY_MAX <= u32::MAX,
                pnio0 + READ_RETRY_MAX <= u16::MAX,
                self.dcerpc_seq_num == dcerpc0 + retry,
                self.pnio_seq_num == pnio0 + retry,
                Self::spec_same_identity(start, *self),
                self.ar_uuid == start.ar_uuid,
                self.activity == start.activity,
                command != 0 ==> self.device_id == start.device_id,
            decreases READ_RETRY_MAX - retry,
        {
            self.next_request();
            let iod_read_req_header = self.construct_iod_header_req(
                true,
                data_record_number,
                &None,
            );
            let pnio = self.construct_pnio_req(
                true,
                PnioHeaderEnum::IodReq(iod_read_req_header),
                None,
            );
            let pnio_bytes = pnio.concat();
            assert(pnio_bytes@.len() == 84);
            let req_dcerpc_packet = self.construct_dcerpc_req(OpNum::Read, pnio_bytes);
            let request = req_dcerpc_packet.concat();
            match self.transport_client.send(&request) {
                Ok(_) => (),
                Err(_) => {
                    return Err(SessionError::Transport);
                },
            }
            let buffer = match self.transport_client.receive() {
                Ok(b) => b,
                Err(_) => {
                    return Err(SessionError::Transport);
                },
            };
            let res_dcerpc_packet = match DceRpcPacket::decode(&buffer) {
                Ok(p) => p,
                Err(_) => {
                    return Err(SessionError::Decode);
                },
            };
            let res_pnio_packet = match Pnio::decode(&res_dcerpc_packet.data) {
                Ok(p) => p,
                Err(_) => {
                    return Err(SessionError::Decode);
                },
            };
            if command == 0 && is_zero_device_id(&self.device_id) {
                // Command-0 bootstrap: learn the long address from a
                // ready record, then poll again so the next round reads
                // with the settled address.
                match &res_pnio_packet.pnio_data {
                    Some(record) => {
                        if record.len() > 0 && record[0] == self.data_ready_flag {
                            match extract_device_id(record) {
                                Some(id) => {
                                    self.device_id = id;
                                },
                                None => (),
                            }
                        }
                    },
                    None => (),
                }
            } else {
                match &res_pnio_packet.pnio_data {
                    Some(record) => {
                        match parse_ready_record(record, self.data_ready_flag) {
                            Some((data_length, status_and_hart_response)) => {
                                return Ok((data_length, status_and_hart_response));
                            },
                            None => (),
                        }
                    },
                    None => (),
                }
            }
            retry = retry + 1;
            self.transport_client.wait_before_retry();
        }
        Err(SessionError::ReadNotReady)
    }
}

/// Sequence monotonicity: across consecutive polling rounds of one
/// device, the DCE/RPC and PNIO sequence counters advance in lockstep
/// and strictly increase. The hypotheses are exactly what
/// `send_common_read_req` ensures of each round.
pub proof fn lemma_sequence_counters_monotonic<T: TransportClient>(
    s0: PnioDevice<T>,
    s1: PnioDevice<T>,
    s2: PnioDevice<T>,
)
    requires
        s1.dcerpc_seq_num - s0.dcerpc_seq_num == s1.pnio_seq_num - s0.pnio_seq_num,
        1 <= s1.dcerpc_seq_num - s0.dcerpc_seq_num <= READ_RETRY_MAX,
        s2.dcerpc_seq_num - s1.dcerpc_seq_num == s2.pnio_seq_num - s1.pnio_seq_num,
        1 <= s2.dcerpc_seq_num - s1.dcerpc_seq_num <= READ_RETRY_MAX,
    ensures
        s0.dcerpc_seq_num < s1.dcerpc_seq_num < s2.dcerpc_seq_num,
        s0.pnio_seq_num < s1.pnio_seq_num < s2.pnio_seq_num,
        s2.dcerpc_seq_num - s0.dcerpc_seq_num == s2.pnio_seq_num - s0.pnio_seq_num,
{
}

} // verus!
