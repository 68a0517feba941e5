//! The IOD read/write response header, which extends the request header
//! with additional values and a 4-byte status.

use vstd::prelude::*;
use crate::error::DecodeError;
use crate::protocol::constant::{BlockHeaderType, READ_MAX_COUNT};
use crate::protocol::pnio_header::PnioHeader;
use crate::protocol::wire::{
    push_be16, push_be32, push_bytes, push_repeat, read_array16, read_array4, read_u16_be,
    read_u32_be, spec_be16, spec_be32, spec_u16_be, spec_u32_be, spec_zeros,
};

verus! {

/// An IOD response header; `block_header_type` distinguishes read from
/// write responses. A status of four zero bytes means success.
pub struct IodRes {
    pub block_header_type: BlockHeaderType,
    pub seq_num: u16,
    pub ar_uuid: [u8; 16],
    pub slot_num: u16,
    pub subslot_num: u16,
    pub index: u16,
    pub status: [u8; 4],
    pub record_data_len: u32,
}

impl IodRes {
    pub fn new(
        block_header_type: BlockHeaderType,
        seq_num: u16,
        ar_uuid: [u8; 16],
        slot_num: u16,
        subslot_num: u16,
        index: u16,
        status: [u8; 4],
        record_data_len: u32,
    ) -> (r: Self)
        ensures
            r == (IodRes {
                block_header_type,
                seq_num,
                ar_uuid,
                slot_num,
                subslot_num,
                index,
                status,
                record_data_len,
            }),
    {
        IodRes {
            block_header_type,
            seq_num,
            ar_uuid,
            slot_num,
            subslot_num,
            index,
            status,
            record_data_len,
        }
    }

    /// True when a buffer decodes to an IOD response header: it holds the
    /// fixed fields, opens with a recognised block type, and, for a write
    /// response, also holds the status field.
    pub open spec fn spec_decodable(bytes: Seq<u8>) -> bool {
        &&& bytes.len() >= 40
        &&& BlockHeaderType::spec_from_u16(spec_u16_be(bytes[0], bytes[1])) is Some
        &&& BlockHeaderType::spec_from_u16(spec_u16_be(bytes[0], bytes[1]))
            == Some(BlockHeaderType::IodWriteResType) ==> bytes.len() >= 48
    }

    /// The fields a buffer decodes to. The status sits after the record
    /// data length and the two additional values, at offsets 44 to 47 of
    /// the block; it is taken from the wire only for a write response and
    /// is zero otherwise, as the AI module reports read failures through
    /// the data-ready byte instead.
    pub open spec fn spec_decodes_to(bytes: Seq<u8>, r: Self) -> bool {
        &&& Some(r.block_header_type) == BlockHeaderType::spec_from_u16(
            spec_u16_be(bytes[0], bytes[1]),
        )
        &&& r.seq_num == spec_u16_be(bytes[6], bytes[7])
        &&& r.ar_uuid@ == bytes.subrange(8, 24)
        &&& r.slot_num == spec_u16_be(bytes[28], bytes[29])
        &&& r.subslot_num == spec_u16_be(bytes[30], bytes[31])
        &&& r.index == spec_u16_be(bytes[34], bytes[35])
        &&& r.record_data_len == spec_u32_be(bytes[36], bytes[37], bytes[38], bytes[39])
        &&& if r.block_header_type == BlockHeaderType::IodWriteResType {
            r.status@ == bytes.subrange(44, 48)
        } else {
            r.status@ == spec_zeros(4)
        }
    }

    /// Decodes an IOD response header from its wire rendering.
    pub fn decode(bytes: &Vec<u8>) -> (r: Result<Self, DecodeError>)
        ensures
            r is Ok <==> Self::spec_decodable(bytes@),
            r matches Ok(b) ==> Self::spec_decodes_to(bytes@, b),
    {
        let n: usize = bytes.len();
        if n < 40 {
            return Err(DecodeError);
        }
        let block_header_type = match BlockHeaderType::from_u16(read_u16_be(bytes, 0)) {
            Some(t) => t,
            None => {
                return Err(DecodeError);
            },
        };
        let seq_num = read_u16_be(bytes, 6);
        let ar_uuid = read_array16(bytes, 8);
        let slot_num = read_u16_be(bytes, 28);
        let subslot_num = read_u16_be(bytes, 30);
        let index = read_u16_be(bytes, 34);
        let record_data_len = read_u32_be(bytes, 36);
        let status: [u8; 4] = if block_header_type == BlockHeaderType::IodWriteResType {
            if n < 48 {
                return Err(DecodeError);
            }
            read_array4(bytes, 44)
        } else {
            let z: [u8; 4] = [0x00, 0x00, 0x00, 0x00];
            assert(z@ =~= spec_zeros(4));
            z
        };
        Ok(
            IodRes {
                block_header_type,
                seq_num,
                ar_uuid,
                slot_num,
                subslot_num,
                index,
                status,
                record_data_len,
            },
        )
    }
}

impl PnioHeader for IodRes {
    /// The record length must leave the envelope counts representable.
    open spec fn valid(&self) -> bool {
        self.record_data_len <= u32::MAX - 64
    }

    /// The stored block type, block length 60, version 1.0, the PNIO
    /// sequence number, the AR UUID, API 0, slot, subslot, two padding
    /// bytes, the record index, the record data length, two additional
    /// values, the status, and 16 padding bytes.
    open spec fn spec_encoding(&self) -> Seq<u8> {
        spec_be16(self.block_header_type.spec_value()) + spec_be16(60) + seq![0x01u8, 0x00u8]
            + spec_be16(self.seq_num) + self.ar_uuid@ + spec_zeros(4) + spec_be16(self.slot_num)
            + spec_be16(self.subslot_num) + spec_zeros(2) + spec_be16(self.index) + spec_be32(
            self.record_data_len,
        ) + spec_zeros(2) + spec_zeros(2) + self.status@ + spec_zeros(16)
    }

    open spec fn spec_max_count(&self) -> u32 {
        match self.block_header_type {
            BlockHeaderType::IodReadResType => READ_MAX_COUNT,
            BlockHeaderType::IodWriteResType => (64 + self.record_data_len) as u32,
            _ => 0,
        }
    }

    open spec fn spec_actual_count(&self) -> u32 {
        match self.block_header_type {
            BlockHeaderType::IodReadResType => (64 + self.record_data_len) as u32,
            BlockHeaderType::IodWriteResType => 64,
            _ => 0,
        }
    }

    open spec fn spec_args_length(&self) -> u32 {
        self.spec_actual_count()
    }

    open spec fn spec_args_max(&self) -> Option<u32> {
        None
    }

    fn concat(&self) -> (r: Vec<u8>) {
        let mut v: Vec<u8> = Vec::new();
        push_be16(&mut v, self.block_header_type.value());
        push_be16(&mut v, 60);
        v.push(0x01);
        v.push(0x00);
        push_be16(&mut v, self.seq_num);
        push_bytes(&mut v, &self.ar_uuid);
        push_repeat(&mut v, 0x00, 4);
        push_be16(&mut v, self.slot_num);
        push_be16(&mut v, self.subslot_num);
        push_repeat(&mut v, 0x00, 2);
        push_be16(&mut v, self.index);
        push_be32(&mut v, self.record_data_len);
        push_repeat(&mut v, 0x00, 2);
        push_repeat(&mut v, 0x00, 2);
        push_bytes(&mut v, &self.status);
        push_repeat(&mut v, 0x00, 16);
        assert(v@ =~= self.spec_encoding());
        v
    }

    fn size(&self) -> (r: usize) {
        assert(self.spec_encoding().len() == 64);
        64
    }

    fn get_max_count(&self) -> (r: u32) {
        match self.block_header_type {
            BlockHeaderType::IodReadResType => READ_MAX_COUNT,
            BlockHeaderType::IodWriteResType => 64 + self.record_data_len,
            _ => 0,
        }
    }

    fn get_actual_count(&self) -> (r: u32) {
        match self.block_header_type {
            BlockHeaderType::IodReadResType => 64 + self.record_data_len,
            BlockHeaderType::IodWriteResType => 64,
            _ => 0,
        }
    }

    fn get_args_length(&self) -> (r: u32) {
        self.get_actual_count()
    }

    fn get_args_max(&self) -> (r: Option<u32>) {
        None
    }
}

} // verus!
