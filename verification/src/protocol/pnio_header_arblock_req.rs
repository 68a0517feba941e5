//! The AR connect-request block: opens an application relation with a
//! fresh AR UUID, a session key, and the initiator's object UUID.

use vstd::prelude::*;
use crate::error::DecodeError;
use crate::protocol::pnio_header::PnioHeader;
use crate::protocol::wire::{
    push_be16, push_bytes, push_repeat, read_array16, read_u16_be, spec_be16, spec_u16_be,
    spec_zeros,
};

verus! {

/// An AR connect-request block. The UUIDs appear on the wire in the
/// standard byte order, as stored.
pub struct ArBlockReq {
    pub ar_uuid: [u8; 16],
    pub session_key: u16,
    pub cm_initiator_obj_uuid: [u8; 16],
}

impl ArBlockReq {
    pub fn new(ar_uuid: [u8; 16], session_key: u16, cm_initiator_obj_uuid: [u8; 16]) -> (r: Self)
        ensures
            r.ar_uuid == ar_uuid,
            r.session_key == session_key,
            r.cm_initiator_obj_uuid == cm_initiator_obj_uuid,
    {
        ArBlockReq { ar_uuid, session_key, cm_initiator_obj_uuid }
    }

    /// True when a buffer decodes to an AR connect-request block: it is
    /// long enough and carries the AR-block-request type.
    pub open spec fn spec_decodable(bytes: Seq<u8>) -> bool {
        bytes.len() >= 61 && spec_u16_be(bytes[0], bytes[1]) == 0x0101
    }

    /// The fields a buffer decodes to.
    pub open spec fn spec_decodes_to(bytes: Seq<u8>, r: Self) -> bool {
        &&& r.ar_uuid@ == bytes.subrange(8, 24)
        &&& r.session_key == spec_u16_be(bytes[24], bytes[25])
        &&& r.cm_initiator_obj_uuid@ == bytes.subrange(32, 48)
    }

    /// Decodes an AR connect-request block from its wire rendering.
    pub fn decode(bytes: &Vec<u8>) -> (r: Result<Self, DecodeError>)
        ensures
            r is Ok <==> Self::spec_decodable(bytes@),
            r matches Ok(b) ==> Self::spec_decodes_to(bytes@, b),
    {
        let n: usize = bytes.len();
        if n < 61 {
            return Err(DecodeError);
        }
        if read_u16_be(bytes, 0) != 0x0101 {
            return Err(DecodeError);
        }
        let ar_uuid = read_array16(bytes, 8);
        let session_key = read_u16_be(bytes, 24);
        let cm_initiator_obj_uuid = read_array16(bytes, 32);
        Ok(ArBlockReq { ar_uuid, session_key, cm_initiator_obj_uuid })
    }
}

impl PnioHeader for ArBlockReq {
    open spec fn valid(&self) -> bool {
        true
    }

    /// Block type 0x0101, block length 57, version 1.0, AR type 6, then
    /// the AR UUID, session key, a zero initiator MAC, the initiator
    /// object UUID, the AR properties, activation timeout factor 0x6e, a
    /// zero UDP-RT port, and the 3-byte station name "TBL".
    open spec fn spec_encoding(&self) -> Seq<u8> {
        spec_be16(0x0101) + spec_be16(57) + seq![0x01u8, 0x00u8] + spec_be16(0x0006)
            + self.ar_uuid@ + spec_be16(self.session_key) + spec_zeros(6)
            + self.cm_initiator_obj_uuid@ + seq![0x00u8, 0x00u8, 0x01u8, 0x11u8] + spec_be16(
            0x006e,
        ) + spec_be16(0x0000) + spec_be16(3) + seq![0x54u8, 0x42u8, 0x4cu8]
    }

    open spec fn spec_max_count(&self) -> u32 {
        61
    }

    open spec fn spec_actual_count(&self) -> u32 {
        61
    }

    open spec fn spec_args_length(&self) -> u32 {
        61
    }

    open spec fn spec_args_max(&self) -> Option<u32> {
        Some(61)
    }

    fn concat(&self) -> (r: Vec<u8>) {
        let mut v: Vec<u8> = Vec::new();
        push_be16(&mut v, 0x0101);
        push_be16(&mut v, 57);
        v.push(0x01);
        v.push(0x00);
        push_be16(&mut v, 0x0006);
        push_bytes(&mut v, &self.ar_uuid);
        push_be16(&mut v, self.session_key);
        push_repeat(&mut v, 0x00, 6);
        push_bytes(&mut v, &self.cm_initiator_obj_uuid);
        v.push(0x00);
        v.push(0x00);
        v.push(0x01);
        v.push(0x11);
        push_be16(&mut v, 0x006e);
        push_be16(&mut v, 0x0000);
        push_be16(&mut v, 3);
        v.push(0x54);
        v.push(0x42);
        v.push(0x4c);
        assert(v@ =~= self.spec_encoding());
        v
    }

    fn size(&self) -> (r: usize) {
        assert(self.spec_encoding().len() == 61);
        61
    }

    fn get_max_count(&self) -> (r: u32) {
        61
    }

    fn get_actual_count(&self) -> (r: u32) {
        61
    }

    fn get_args_length(&self) -> (r: u32) {
        61
    }

    fn get_args_max(&self) -> (r: Option<u32>) {
        Some(61)
    }
}

/// Decoding an encoded AR connect-request block restores the AR UUID, the
/// session key and the initiator object UUID.
pub proof fn lemma_arblock_req_round_trip(b: ArBlockReq)
    ensures
        ArBlockReq::spec_decodable(b.spec_encoding()),
        ArBlockReq::spec_decodes_to(b.spec_encoding(), b),
{
    let e = b.spec_encoding();
    assert(e.len() == 61);
    assert(e[0] == 0x01u8 && e[1] == 0x01u8);
    crate::protocol::wire::lemma_be16_round_trip(0x0101);
    assert(spec_u16_be(e[0], e[1]) == 0x0101) by {
        assert(e[0] == spec_be16(0x0101)[0]);
        assert(e[1] == spec_be16(0x0101)[1]);
    }
    assert(e.subrange(8, 24) =~= b.ar_uuid@);
    assert(e.subrange(32, 48) =~= b.cm_initiator_obj_uuid@);
    assert(e[24] == spec_be16(b.session_key)[0] && e[25] == spec_be16(b.session_key)[1]);
    crate::protocol::wire::lemma_be16_round_trip(b.session_key);
}

} // verus!
