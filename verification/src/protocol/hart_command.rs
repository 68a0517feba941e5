//! HART frame construction: the short command-0 bootstrap frame and the
//! long-address frame used once the device identity is known.

use vstd::prelude::*;
use crate::protocol::util::spec_xor;

verus! {

/// True when a 5-byte HART long address is still unset.
pub open spec fn spec_zero_device_id(id: Seq<u8>) -> bool {
    id.len() == 5 && (forall|i: int| 0 <= i < 5 ==> id[i] == 0)
}

/// The short command-0 frame body, before the checksum byte: transparent
/// message format, 0x14 preamble bytes, the short-frame delimiter, address
/// and command 0, and a zero byte count.
pub open spec fn spec_short_frame_body() -> Seq<u8> {
    seq![0x00u8, 0x14u8, 0x02u8, 0x00u8, 0x00u8, 0x00u8]
}

/// The long frame body, before the checksum byte: transparent message
/// format, 0x05 preamble bytes, the long-frame delimiter, the 5-byte
/// device address, the command, a byte count of one, then the payload.
pub open spec fn spec_long_frame_body(device_id: Seq<u8>, command: u8, payload: Seq<u8>) -> Seq<
    u8,
>
    recommends
        device_id.len() == 5,
{
    seq![0x00u8, 0x05u8, 0x82u8, device_id[0], device_id[1], device_id[2], device_id[3],
        device_id[4], command, 0x01u8] + payload
}

/// A frame body completed with its XOR checksum, which covers everything
/// from the delimiter byte on (offset 2).
pub open spec fn spec_with_checksum(body: Seq<u8>) -> Seq<u8> {
    body.push(spec_xor(body.subrange(2, body.len() as int)))
}

/// The full HART write frame for a command: the short bootstrap form for
/// command 0 while the device address is unknown, the long form otherwise.
pub open spec fn spec_hart_frame(device_id: Seq<u8>, command: u8, payload: Seq<u8>) -> Seq<u8>
    recommends
        device_id.len() == 5,
{
    if command == 0 && spec_zero_device_id(device_id) {
        spec_with_checksum(spec_short_frame_body())
    } else {
        spec_with_checksum(spec_long_frame_body(device_id, command, payload))
    }
}

/// Whether a 5-byte HART long address is still unset.
pub fn is_zero_device_id(id: &[u8; 5]) -> (r: bool)
    ensures
        r == spec_zero_device_id(id@),
{
    let r = id[0] == 0 && id[1] == 0 && id[2] == 0 && id[3] == 0 && id[4] == 0;
    assert(r == spec_zero_device_id(id@));
    r
}

pub struct HartCommand {}

impl HartCommand {
    /// Builds the record data for a HART write request.
    pub fn construct_write_request(device_id: [u8; 5], command: u8, write_payload: Option<
        &Vec<u8>,
    >) -> (r: Vec<u8>)
        ensures
            r@ == spec_hart_frame(
                device_id@,
                command,
                match write_payload {
                    Some(p) => p@,
                    None => Seq::empty(),
                },
            ),
    {
        let mut data: Vec<u8> = Vec::new();
        let zero_id = device_id[0] == 0 && device_id[1] == 0 && device_id[2] == 0 && device_id[3]
            == 0 && device_id[4] == 0;
        assert(zero_id == spec_zero_device_id(device_id@));
        if command == 0 && zero_id {
            data.push(0x00);
            data.push(0x14);
            data.push(0x02);
            data.push(0x00);
            data.push(0x00);
            data.push(0x00);
            assert(data@ =~= spec_short_frame_body());
        } else {
            data.push(0x00);
            data.push(0x05);
            data.push(0x82);
            data.push(device_id[0]);
            data.push(device_id[1]);
            data.push(device_id[2]);
            data.push(device_id[3]);
            data.push(device_id[4]);
            data.push(command);
            data.push(0x01);
            if let Some(p) = write_payload {
                crate::protocol::wire::push_vec(&mut data, p);
            }
            assert(data@ =~= spec_long_frame_body(
                device_id@,
                command,
                match write_payload {
                    Some(p) => p@,
                    None => Seq::empty(),
                },
            ));
        }
        let ghost body: Seq<u8> = data@;
        let checksum = crate::protocol::util::xor_range(&data, 2);
        data.push(checksum);
        assert(data@ =~= spec_with_checksum(body));
        data
    }
}

} // verus!
