//! The IOD read/write request header: addresses a data record by slot,
//! subslot and record index within an application relation.

use vstd::prelude::*;
use crate::protocol::constant::{BlockHeaderType, READ_MAX_COUNT};
use crate::protocol::pnio_header::PnioHeader;
use crate::protocol::wire::{push_be16, push_be32, push_bytes, push_repeat, spec_be16, spec_be32,
    spec_zeros};

verus! {

/// An IOD request header; `block_header_type` distinguishes reads from
/// writes. The AR UUID appears on the wire in the standard byte order,
/// as stored. `index` is the PNIO data record number of the AI module's
/// request or response record.
pub struct IodReq {
    pub block_header_type: BlockHeaderType,
    pub seq_num: u16,
    pub ar_uuid: [u8; 16],
    pub slot_num: u16,
    pub subslot_num: u16,
    pub index: u16,
    pub record_data_len: u32,
}

impl IodReq {
    pub fn new(
        block_header_type: BlockHeaderType,
        seq_num: u16,
        ar_uuid: [u8; 16],
        slot_num: u16,
        subslot_num: u16,
        index: u16,
        record_data_len: u32,
    ) -> (r: Self)
        ensures
            r == (IodReq {
                block_header_type,
                seq_num,
                ar_uuid,
                slot_num,
                subslot_num,
                index,
                record_data_len,
            }),
    {
        IodReq { block_header_type, seq_num, ar_uuid, slot_num, subslot_num, index, record_data_len }
    }
}

impl PnioHeader for IodReq {
    /// The record length must leave the envelope counts representable.
    open spec fn valid(&self) -> bool {
        self.record_data_len <= u32::MAX - 64
    }

    /// The stored block type, block length 60, version 1.0, the PNIO
    /// sequence number, the AR UUID, API 0, slot, subslot, two padding
    /// bytes, the record index, the record data length, and 24 padding
    /// bytes.
    open spec fn spec_encoding(&self) -> Seq<u8> {
        spec_be16(self.block_header_type.spec_value()) + spec_be16(60) + seq![0x01u8, 0x00u8]
            + spec_be16(self.seq_num) + self.ar_uuid@ + spec_zeros(4) + spec_be16(self.slot_num)
            + spec_be16(self.subslot_num) + spec_zeros(2) + spec_be16(self.index) + spec_be32(
            self.record_data_len,
        ) + spec_zeros(24)
    }

    open spec fn spec_max_count(&self) -> u32 {
        match self.block_header_type {
            BlockHeaderType::IodReadReqType => READ_MAX_COUNT,
            BlockHeaderType::IodWriteReqType => (64 + self.record_data_len) as u32,
            _ => 0,
        }
    }

    open spec fn spec_actual_count(&self) -> u32 {
        match self.block_header_type {
            BlockHeaderType::IodReadReqType => 64,
            BlockHeaderType::IodWriteReqType => (64 + self.record_data_len) as u32,
            _ => 0,
        }
    }

    open spec fn spec_args_length(&self) -> u32 {
        self.spec_actual_count()
    }

    open spec fn spec_args_max(&self) -> Option<u32> {
        match self.block_header_type {
            BlockHeaderType::IodReadReqType => Some(READ_MAX_COUNT),
            BlockHeaderType::IodWriteReqType => Some((64 + self.record_data_len) as u32),
            _ => None,
        }
    }

    fn concat(&self) -> (r: Vec<u8>) {
        let mut v: Vec<u8> = Vec::new();
        push_be16(&mut v, self.block_header_type.value());
        push_be16(&mut v, 60);
        v.push(0x01);
        v.push(0x00);
        push_be16(&mut v, self.seq_num);
        push_bytes(&mut v, &self.ar_uuid);
        push_repeat(&mut v, 0x00, 4);
        push_be16(&mut v, self.slot_num);
        push_be16(&mut v, self.subslot_num);
        push_repeat(&mut v, 0x00, 2);
        push_be16(&mut v, self.index);
        push_be32(&mut v, self.record_data_len);
        push_repeat(&mut v, 0x00, 24);
        assert(v@ =~= self.spec_encoding());
        v
    }

    fn size(&self) -> (r: usize) {
        assert(self.spec_encoding().len() == 64);
        64
    }

    fn get_max_count(&self) -> (r: u32) {
        match self.block_header_type {
            BlockHeaderType::IodReadReqType => READ_MAX_COUNT,
            BlockHeaderType::IodWriteReqType => 64 + self.record_data_len,
            _ => 0,
        }
    }

    fn get_actual_count(&self) -> (r: u32) {
        match self.block_header_type {
            BlockHeaderType::IodReadReqType => 64,
            BlockHeaderType::IodWriteReqType => 64 + self.record_data_len,
            _ => 0,
        }
    }

    fn get_args_length(&self) -> (r: u32) {
        self.get_actual_count()
    }

    fn get_args_max(&self) -> (r: Option<u32>) {
        match self.block_header_type {
            BlockHeaderType::IodReadReqType => Some(READ_MAX_COUNT),
            BlockHeaderType::IodWriteReqType => Some(64 + self.record_data_len),
            _ => None,
        }
    }
}

} // verus!
