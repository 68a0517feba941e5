//! The endpoint-mapper conversation that discovers a PNIO device: query
//! the lookup port, match the returned annotation against the configured
//! device name, and take the interface UUID and PNIO port from the tower
//! floors.

use vstd::prelude::*;
use crate::config::DeviceKey;
use crate::device::pnio_device::PnioDevice;
use crate::error::LookupError;
use crate::protocol::constant::{InterfaceVersion, LOOKUP_INTERFACE_UUID, OpNum, PacketType};
use crate::protocol::constant::TowerFloorProtocol;
use crate::protocol::dcerpc::DceRpcPacket;
use crate::protocol::dcerpc_epm_req::DceRpcEpmRequest;
use crate::protocol::dcerpc_epm_res::{DceRpcEpmResponse, TowerFloor, TowerFloorView,
    spec_floor_views};
use crate::protocol::hart_command::spec_zero_device_id;
use crate::protocol::packet::Packet;
use crate::transport::transport_client::TransportClient;

verus! {

/// How often the endpoint mapper is queried before a device is given up
/// for this cycle.
pub const LOOKUP_RETRY_MAX: u8 = 10;

/// The data-ready value of the AI HART module this engine was developed
/// against.
pub const DEFAULT_DATA_READY_FLAG: u8 = 0x04;

/// True when `hay` holds `needle` as a contiguous run of bytes.
pub open spec fn spec_contains_bytes(hay: Seq<u8>, needle: Seq<u8>) -> bool {
    exists|i: int|
        0 <= i <= hay.len() - needle.len() && #[trigger] hay.subrange(i, i + needle.len())
            == needle
}

/// Substring search over bytes, as the annotation match uses it.
pub fn contains_bytes(hay: &Vec<u8>, needle: &Vec<u8>) -> (r: bool)
    ensures
        r == spec_contains_bytes(hay@, needle@),
{
    let n: usize = hay.len();
    let m: usize = needle.len();
    if m > n {
        assert(!spec_contains_bytes(hay@, needle@));
        return false;
    }
    if m == 0 {
        assert(spec_contains_bytes(hay@, needle@)) by {
            assert(hay@.subrange(0, 0 + needle@.len() as int) =~= needle@);
        }
        return true;
    }
    let mut i: usize = 0;
    while i <= n - m
        invariant
            1 <= m <= n,
            n == hay@.len(),
            m == needle@.len(),
            i <= n - m + 1,
            forall|a: int|
                0 <= a < i ==> #[trigger] hay@.subrange(a, a + needle@.len()) != needle@,
        decreases n - m + 1 - i,
    {
        if match_at(hay, needle, i) {
            return true;
        }
        i = i + 1;
    }
    assert(!spec_contains_bytes(hay@, needle@));
    false
}

/// Whether `needle` occurs in `hay` at offset `i`.
fn match_at(hay: &Vec<u8>, needle: &Vec<u8>, i: usize) -> (r: bool)
    requires
        i + needle@.len() <= hay@.len(),
    ensures
        r <==> hay@.subrange(i as int, i + needle@.len()) == needle@,
{
    let n: usize = hay.len();
    let m: usize = needle.len();
    let mut j: usize = 0;
    while j < m
        invariant
            j <= m,
            m == needle@.len(),
            n == hay@.len(),
            i + m <= n,
            forall|b: int| 0 <= b < j ==> hay@[i + b] == needle@[b],
        decreases m - j,
    {
        if hay[i + j] != needle[j] {
            assert(hay@.subrange(i as int, i + needle@.len())[j as int] == hay@[i + j]);
            return false;
        }
        j = j + 1;
    }
    assert(hay@.subrange(i as int, i + needle@.len()) =~= needle@);
    true
}

/// The UDP port of the last UDP floor in the tower, if the tower has
/// one.
pub open spec fn spec_last_udp_port(floors: Seq<TowerFloorView>) -> Option<u16>
    decreases floors.len(),
{
    if floors.len() == 0 {
        None
    } else if floors.last().protocol == TowerFloorProtocol::Udp {
        floors.last().udp_port
    } else {
        spec_last_udp_port(floors.drop_last())
    }
}

/// Finds the port of the last UDP floor.
pub fn last_udp_port(floors: &Vec<TowerFloor>) -> (r: Option<u16>)
    ensures
        r == spec_last_udp_port(spec_floor_views(floors@)),
{
    let n: usize = floors.len();
    let mut r: Option<u16> = None;
    assert(spec_floor_views(floors@).take(0) =~= Seq::<TowerFloorView>::empty());
    let mut i: usize = 0;
    while i < n
        invariant
            i <= n,
            n == floors@.len(),
            r == spec_last_udp_port(spec_floor_views(floors@).take(i as int)),
        decreases n - i,
    {
        let ghost prefix = spec_floor_views(floors@).take(i as int);
        if matches!(floors[i].protocol, TowerFloorProtocol::Udp) {
            r = floors[i].udp_port;
        }
        proof {
            let next_prefix = spec_floor_views(floors@).take(i + 1);
            assert(next_prefix.last() == spec_floor_views(floors@)[i as int]);
            assert(next_prefix.drop_last() =~= prefix);
            assert(spec_floor_views(floors@)[i as int].protocol == floors@[i as int].protocol);
        }
        i = i + 1;
    }
    assert(spec_floor_views(floors@).take(n as int) =~= spec_floor_views(floors@));
    r
}

/// Drives endpoint-mapper lookups; owns the DCE/RPC sequence counter of
/// the lookup conversation.
pub struct LookupClient {
    pub dcerpc_seq_num: u32,
}

impl LookupClient {
    pub fn new() -> (r: Self)
        ensures
            r.dcerpc_seq_num == 0,
    {
        LookupClient { dcerpc_seq_num: 0 }
    }

    /// Looks a device up: binds a transport to the lookup port, queries
    /// the endpoint mapper up to `LOOKUP_RETRY_MAX` times, and on a
    /// matching entry redirects the transport to the advertised PNIO
    /// port and builds the device handle. A found device starts with
    /// both sequence counters at zero, an unset HART long address, and
    /// the addressing this call was given.
    pub fn lookup<T: TransportClient>(
        &mut self,
        src_ip: u32,
        device_name: &Vec<u8>,
        dst_ip: u32,
        lookup_port: u16,
        slot_number: u16,
        subslot_number: u16,
        request_data_record_number: u16,
        response_data_record_number: u16,
        hart_device_name: &String,
    ) -> (r: Result<PnioDevice<T>, LookupError>)
        requires
            old(self).dcerpc_seq_num + LOOKUP_RETRY_MAX <= u32::MAX,
        ensures
            old(self).dcerpc_seq_num <= final(self).dcerpc_seq_num <= old(self).dcerpc_seq_num
                + LOOKUP_RETRY_MAX,
            r matches Err(LookupError::Exhausted(k)) ==> k == (DeviceKey {
                ip: dst_ip,
                slot: slot_number,
                subslot: subslot_number,
            }),
            r matches Ok(d) ==> ({
                &&& d.dcerpc_seq_num == 0
                &&& d.pnio_seq_num == 0
                &&& spec_zero_device_id(d.device_id@)
                &&& d.slot_num == slot_number
                &&& d.subslot_num == subslot_number
                &&& d.request_data_record_number == request_data_record_number
                &&& d.response_data_record_number == response_data_record_number
                &&& d.hart_device_name == hart_device_name
                &&& d.data_ready_flag == DEFAULT_DATA_READY_FLAG
            }),
    {
        let ghost seq0 = self.dcerpc_seq_num;
        let mut transport = match T::bind(src_ip, dst_ip, lookup_port) {
            Ok(t) => t,
            Err(_) => {
                return Err(LookupError::Transport);
            },
        };
        let mut handle: [u8; 20] = [0x00, 0x00, 0x00, 0x00, 0x00, 0x00, 0x00, 0x00, 0x00, 0x00,
            0x00, 0x00, 0x00, 0x00, 0x00, 0x00, 0x00, 0x00, 0x00, 0x00];
        let mut retry: u8 = 0;
        #[verifier::loop_isolation(false)]
        while retry < LOOKUP_RETRY_MAX
            invariant
                retry <= LOOKUP_RETRY_MAX,
                self.dcerpc_seq_num == seq0 + retry,
            decreases LOOKUP_RETRY_MAX - retry,
        {
            let dcerpc_epm_request = DceRpcEpmRequest::new(handle);
            let zero_uuid: [u8; 16] = [0x00, 0x00, 0x00, 0x00, 0x00, 0x00, 0x00, 0x00, 0x00, 0x00,
                0x00, 0x00, 0x00, 0x00, 0x00, 0x00];
            let activity = crate::uuid_gen::fresh_uuid();
            let epm_bytes = dcerpc_epm_request.concat();
            let dcerpc_packet = DceRpcPacket::new(
                PacketType::Request,
                zero_uuid,
                LOOKUP_INTERFACE_UUID,
                InterfaceVersion::Lookup,
                activity,
                self.dcerpc_seq_num,
                OpNum::Read,
                epm_bytes,
            );
            let request = dcerpc_packet.concat();
            match transport.send(&request) {
                Ok(_) => (),
                Err(_) => {
                    return Err(LookupError::Transport);
                },
            }
            let raw_response = match transport.receive() {
                Ok(b) => b,
                Err(_) => {
                    return Err(LookupError::Transport);
                },
            };
            let dcerpc_response = match DceRpcPacket::decode(&raw_response) {
                Ok(p) => p,
                Err(_) => {
                    return Err(LookupError::Decode);
                },
            };
            let dcerpc_epm_response = match DceRpcEpmResponse::decode(&dcerpc_response.data) {
                Ok(resp) => resp,
                Err(_) => {
                    return Err(LookupError::Decode);
                },
            };
            handle = crate::protocol::wire::vec_to_array20(&dcerpc_epm_response.handle);
            // An entry with an all-zero object UUID is not a PNIO
            // interface; try again.
            let mut object_is_zero = true;
            let mut k: usize = 0;
            while k < 16
                invariant
                    k <= 16,
                decreases 16 - k,
            {
                if dcerpc_epm_response.entry.object[k] != 0 {
                    object_is_zero = false;
                    k = 16;
                } else {
                    k = k + 1;
                }
            }
            if !object_is_zero {
                let tower_pointer = &dcerpc_epm_response.entry.tower_pointer;
                if contains_bytes(&tower_pointer.annotation, device_name) {
                    // The PNIO interface UUID is taken from the first
                    // floor; the device's port from the last UDP floor.
                    let interface_uuid: Option<[u8; 16]> = if tower_pointer.floors.len() > 0 {
                        tower_pointer.floors[0].uuid
                    } else {
                        None
                    };
                    let port = last_udp_port(&tower_pointer.floors);
                    match (interface_uuid, port) {
                        (Some(iface), Some(p)) => {
                            if transport.update_dest(dst_ip, p).is_err() {
                                return Err(LookupError::Transport);
                            }
                            let dst_details = match transport.get_dst_conn_details() {
                                Ok(d) => d,
                                Err(_) => {
                                    return Err(LookupError::Transport);
                                },
                            };
                            let device_id: [u8; 5] = [0x00, 0x00, 0x00, 0x00, 0x00];
                            assert(spec_zero_device_id(device_id@));
                            let pnio_device = PnioDevice::new(
                                dcerpc_epm_response.handle,
                                dcerpc_epm_response.entry.object,
                                iface,
                                p,
                                device_id,
                                dst_details.0,
                                transport,
                                slot_number,
                                subslot_number,
                                DEFAULT_DATA_READY_FLAG,
                                request_data_record_number,
                                response_data_record_number,
                                hart_device_name.clone(),
                            );
                            return Ok(pnio_device);
                        },
                        _ => (),
                    }
                }
            }
            transport.wait_before_retry();
            self.dcerpc_seq_num = self.dcerpc_seq_num + 1;
            retry = retry + 1;
        }
        Err(LookupError::Exhausted(DeviceKey { ip: dst_ip, slot: slot_number, subslot: subslot_number }))
    }
}

} // verus!
