//! The AR connect-response block returned by the device after a connect
//! request.

use vstd::prelude::*;
use crate::error::DecodeError;
use crate::protocol::constant::BlockHeaderType;
use crate::protocol::pnio_header::PnioHeader;
use crate::protocol::wire::{
    push_be16, push_bytes, read_array16, read_array2, read_array6, read_u16_be, spec_be16,
    spec_u16_be,
};

verus! {

/// An AR connect-response block. The AR UUID appears on the wire in the
/// standard byte order, as stored.
pub struct ArBlockRes {
    pub block_header_type: BlockHeaderType,
    pub ar_uuid: [u8; 16],
    pub session_key: u16,
    pub cm_responder_mac_address: [u8; 6],
    pub cm_responder_udpport: [u8; 2],
}

impl ArBlockRes {
    pub fn new(
        block_header_type: BlockHeaderType,
        ar_uuid: [u8; 16],
        session_key: u16,
        cm_responder_mac_address: [u8; 6],
        cm_responder_udpport: [u8; 2],
    ) -> (r: Self)
        ensures
            r == (ArBlockRes {
                block_header_type,
                ar_uuid,
                session_key,
                cm_responder_mac_address,
                cm_responder_udpport,
            }),
    {
        ArBlockRes {
            block_header_type,
            ar_uuid,
            session_key,
            cm_responder_mac_address,
            cm_responder_udpport,
        }
    }

    /// True when a buffer decodes to an AR-block response: it is long
    /// enough and opens with a recognised block type.
    pub open spec fn spec_decodable(bytes: Seq<u8>) -> bool {
        bytes.len() >= 34 && BlockHeaderType::spec_from_u16(
            spec_u16_be(bytes[0], bytes[1]),
        ) is Some
    }

    /// The fields a buffer decodes to.
    pub open spec fn spec_decodes_to(bytes: Seq<u8>, r: Self) -> bool {
        &&& Some(r.block_header_type) == BlockHeaderType::spec_from_u16(
            spec_u16_be(bytes[0], bytes[1]),
        )
        &&& r.ar_uuid@ == bytes.subrange(8, 24)
        &&& r.session_key == spec_u16_be(bytes[24], bytes[25])
        &&& r.cm_responder_mac_address@ == bytes.subrange(26, 32)
        &&& r.cm_responder_udpport@ == bytes.subrange(32, 34)
    }

    /// Decodes an AR connect-response block from its wire rendering.
    pub fn decode(bytes: &Vec<u8>) -> (r: Result<Self, DecodeError>)
        ensures
            r is Ok <==> Self::spec_decodable(bytes@),
            r matches Ok(b) ==> Self::spec_decodes_to(bytes@, b),
    {
        let n: usize = bytes.len();
        if n < 34 {
            return Err(DecodeError);
        }
        let block_header_type = match BlockHeaderType::from_u16(read_u16_be(bytes, 0)) {
            Some(t) => t,
            None => {
                return Err(DecodeError);
            },
        };
        let ar_uuid = read_array16(bytes, 8);
        let session_key = read_u16_be(bytes, 24);
        let cm_responder_mac_address = read_array6(bytes, 26);
        let cm_responder_udpport = read_array2(bytes, 32);
        Ok(
            ArBlockRes {
                block_header_type,
                ar_uuid,
                session_key,
                cm_responder_mac_address,
                cm_responder_udpport,
            },
        )
    }
}

impl PnioHeader for ArBlockRes {
    open spec fn valid(&self) -> bool {
        true
    }

    /// The stored block type, block length 30, version 1.0, AR type 6,
    /// the AR UUID, session key, responder MAC and responder UDP port.
    open spec fn spec_encoding(&self) -> Seq<u8> {
        spec_be16(self.block_header_type.spec_value()) + spec_be16(30) + seq![0x01u8, 0x00u8]
            + spec_be16(0x0006) + self.ar_uuid@ + spec_be16(self.session_key)
            + self.cm_responder_mac_address@ + self.cm_responder_udpport@
    }

    open spec fn spec_max_count(&self) -> u32 {
        34
    }

    open spec fn spec_actual_count(&self) -> u32 {
        34
    }

    open spec fn spec_args_length(&self) -> u32 {
        34
    }

    open spec fn spec_args_max(&self) -> Option<u32> {
        None
    }

    fn concat(&self) -> (r: Vec<u8>) {
        let mut v: Vec<u8> = Vec::new();
        push_be16(&mut v, self.block_header_type.value());
        push_be16(&mut v, 30);
        v.push(0x01);
        v.push(0x00);
        push_be16(&mut v, 0x0006);
        push_bytes(&mut v, &self.ar_uuid);
        push_be16(&mut v, self.session_key);
        push_bytes(&mut v, &self.cm_responder_mac_address);
        push_bytes(&mut v, &self.cm_responder_udpport);
        assert(v@ =~= self.spec_encoding());
        v
    }

    fn size(&self) -> (r: usize) {
        assert(self.spec_encoding().len() == 34);
        34
    }

    fn get_max_count(&self) -> (r: u32) {
        34
    }

    fn get_actual_count(&self) -> (r: u32) {
        34
    }

    fn get_args_length(&self) -> (r: u32) {
        34
    }

    fn get_args_max(&self) -> (r: Option<u32>) {
        None
    }
}

} // verus!
