//! The PNIO envelope: four count fields (plus `args_max` on requests and
//! a status on responses) around an AR or IOD block, optionally followed
//! by record data.

use vstd::prelude::*;
use crate::error::DecodeError;
use crate::protocol::constant::BlockHeaderType;
use crate::protocol::packet::Packet;
use crate::protocol::pnio_header::{PnioHeader, PnioHeaderEnum};
use crate::protocol::pnio_header_arblock_res::ArBlockRes;
use crate::protocol::pnio_header_iod_res::IodRes;
use crate::protocol::wire::{
    copy_range, push_le32, push_repeat, push_vec, read_array4, read_u16_be, read_u32_le,
    spec_resize_zero, spec_u16_be, spec_u32_be, spec_u32_le, spec_zeros,
};

verus! {

/// A PNIO envelope. The counts are derived from the block it carries, as
/// `Pnio::new` states; `pnio_data` holds record data (a HART frame on
/// writes, the response record on reads).
pub struct Pnio {
    pub args_max: Option<u32>,
    pub status: Option<[u8; 4]>,
    pub args_length: u32,
    pub max_count: u32,
    pub actual_count: u32,
    pub pnio_header: PnioHeaderEnum,
    pub pnio_data: Option<Vec<u8>>,
}

impl Pnio {
    /// Wraps a block in an envelope, deriving every count from the block.
    pub fn new(status: Option<[u8; 4]>, pnio_header: PnioHeaderEnum, pnio_data: Option<
        Vec<u8>,
    >) -> (r: Self)
        requires
            pnio_header.valid(),
        ensures
            r.status == status,
            r.pnio_header == pnio_header,
            r.pnio_data == pnio_data,
            r.args_max == pnio_header.spec_args_max(),
            r.args_length == pnio_header.spec_args_length(),
            r.max_count == pnio_header.spec_max_count(),
            r.actual_count == pnio_header.spec_actual_count(),
    {
        let args_max = pnio_header.get_args_max();
        let args_length = pnio_header.get_args_length();
        let max_count = pnio_header.get_max_count();
        let actual_count = pnio_header.get_actual_count();
        Pnio { args_max, status, args_length, max_count, actual_count, pnio_header, pnio_data }
    }

    /// The block type named at offset 20 of a reply buffer.
    pub open spec fn spec_block_type(bytes: Seq<u8>) -> Option<BlockHeaderType>
        recommends
            bytes.len() >= 24,
    {
        BlockHeaderType::spec_from_u16(spec_u16_be(bytes[20], bytes[21]))
    }

    /// The block length named at offset 22 of a reply buffer.
    pub open spec fn spec_block_len(bytes: Seq<u8>) -> int
        recommends
            bytes.len() >= 24,
    {
        spec_u16_be(bytes[22], bytes[23]) as int
    }

    /// The `actual_count` named at offset 16 of a reply buffer.
    pub open spec fn spec_wire_actual_count(bytes: Seq<u8>) -> u32
        recommends
            bytes.len() >= 24,
    {
        spec_u32_le(bytes[16], bytes[17], bytes[18], bytes[19])
    }

    /// True when a reply buffer decodes to an envelope. Only the three
    /// response block kinds are decoded; the block must lie within the
    /// buffer, its record length must leave the counts representable,
    /// and, on a read response, the wire `actual_count` must cover the
    /// block so that the record data length is not negative.
    pub open spec fn spec_decodable(bytes: Seq<u8>) -> bool {
        let bt = Self::spec_block_type(bytes);
        let bl = Self::spec_block_len(bytes);
        let sub = bytes.subrange(20, 24 + bl);
        &&& bytes.len() >= 24
        &&& bt is Some
        &&& 24 + bl <= bytes.len()
        &&& (bt == Some(BlockHeaderType::ArBlockResType) || bt == Some(
            BlockHeaderType::IodReadResType,
        ) || bt == Some(BlockHeaderType::IodWriteResType))
        &&& bt == Some(BlockHeaderType::ArBlockResType) ==> ArBlockRes::spec_decodable(sub)
        &&& (bt == Some(BlockHeaderType::IodReadResType) || bt == Some(
            BlockHeaderType::IodWriteResType,
        )) ==> (IodRes::spec_decodable(sub) && spec_u32_be(sub[36], sub[37], sub[38], sub[39])
            <= u32::MAX - 64)
        &&& bt == Some(BlockHeaderType::IodReadResType) ==> Self::spec_wire_actual_count(bytes)
            >= bl + 4
    }

    /// Decodes a reply buffer. On a read response the record data is
    /// everything after the block, brought to the length that the wire
    /// `actual_count` implies: longer data is truncated, shorter data is
    /// padded with zeros (the AI module is known to send fewer bytes than
    /// it announces).
    pub fn decode(bytes: &Vec<u8>) -> (r: Result<Self, DecodeError>)
        ensures
            r is Ok <==> Self::spec_decodable(bytes@),
            r matches Ok(p) ==> ({
                let bt = Self::spec_block_type(bytes@);
                let bl = Self::spec_block_len(bytes@);
                let sub = bytes@.subrange(20, 24 + bl);
                &&& (bt == Some(BlockHeaderType::ArBlockResType) ==> p.status is None)
                &&& ((bt == Some(BlockHeaderType::IodReadResType) || bt == Some(
                    BlockHeaderType::IodWriteResType,
                )) ==> (p.status matches Some(s) && s@ == bytes@.subrange(0, 4)))
                &&& (bt == Some(BlockHeaderType::ArBlockResType) ==> (
                p.pnio_header matches PnioHeaderEnum::ArBlockRes(h)
                    && ArBlockRes::spec_decodes_to(sub, h)))
                &&& ((bt == Some(BlockHeaderType::IodReadResType) || bt == Some(
                    BlockHeaderType::IodWriteResType,
                )) ==> (p.pnio_header matches PnioHeaderEnum::IodRes(h) && IodRes::spec_decodes_to(
                    sub,
                    h,
                )))
                &&& p.args_max == p.pnio_header.spec_args_max()
                &&& p.args_length == p.pnio_header.spec_args_length()
                &&& p.max_count == p.pnio_header.spec_max_count()
                &&& p.actual_count == p.pnio_header.spec_actual_count()
                &&& (bt == Some(BlockHeaderType::IodReadResType) ==> (
                p.pnio_data matches Some(d) && d@ == spec_resize_zero(
                    bytes@.subrange(24 + bl, bytes@.len() as int),
                    (Self::spec_wire_actual_count(bytes@) - bl - 4) as nat,
                )))
                &&& (bt != Some(BlockHeaderType::IodReadResType) ==> p.pnio_data is None)
            }),
    {
        let n: usize = bytes.len();
        if n < 24 {
            return Err(DecodeError);
        }
        let actual_count = read_u32_le(bytes, 16);
        let bt = match BlockHeaderType::from_u16(read_u16_be(bytes, 20)) {
            Some(t) => t,
            None => {
                return Err(DecodeError);
            },
        };
        let is_iod_res = bt == BlockHeaderType::IodReadResType || bt
            == BlockHeaderType::IodWriteResType;
        if !(bt == BlockHeaderType::ArBlockResType || is_iod_res) {
            return Err(DecodeError);
        }
        let block_length = read_u16_be(bytes, 22) as usize;
        if 24 + block_length > n {
            return Err(DecodeError);
        }
        let sub = copy_range(bytes, 20, block_length + 4);
        let status: Option<[u8; 4]> = if is_iod_res {
            Some(read_array4(bytes, 0))
        } else {
            None
        };
        let pnio_header: PnioHeaderEnum = if bt == BlockHeaderType::ArBlockResType {
            match ArBlockRes::decode(&sub) {
                Ok(h) => PnioHeaderEnum::ArBlockRes(h),
                Err(_) => {
                    return Err(DecodeError);
                },
            }
        } else {
            match IodRes::decode(&sub) {
                Ok(h) => {
                    if h.record_data_len > u32::MAX - 64 {
                        return Err(DecodeError);
                    }
                    PnioHeaderEnum::IodRes(h)
                },
                Err(_) => {
                    return Err(DecodeError);
                },
            }
        };
        let pnio_data: Option<Vec<u8>> = if bt == BlockHeaderType::IodReadResType {
            if actual_count < block_length as u32 + 4 {
                return Err(DecodeError);
            }
            let data_len = (actual_count - block_length as u32 - 4) as usize;
            let tail_len = n - (24 + block_length);
            let mut data = if tail_len >= data_len {
                copy_range(bytes, 24 + block_length, data_len)
            } else {
                copy_range(bytes, 24 + block_length, tail_len)
            };
            if data.len() < data_len {
                let pad = data_len - data.len();
                push_repeat(&mut data, 0x00, pad);
            }
            assert(data@ =~= spec_resize_zero(
                bytes@.subrange(24 + block_length as int, bytes@.len() as int),
                (actual_count - block_length - 4) as nat,
            ));
            Some(data)
        } else {
            None
        };
        Ok(Pnio::new(status, pnio_header, pnio_data))
    }
}

impl Packet for Pnio {
    /// Only requests are rendered: `args_max` must be present, the block
    /// must be renderable, and the record data must fit the DCE/RPC
    /// fragment that will carry the envelope.
    open spec fn valid(&self) -> bool {
        &&& self.args_max is Some
        &&& self.pnio_header.valid()
        &&& (self.pnio_data matches Some(d) ==> d@.len() <= 0xffff)
    }

    open spec fn spec_encoding(&self) -> Seq<u8> {
        crate::protocol::wire::spec_le32(self.args_max->Some_0) + crate::protocol::wire::spec_le32(
            self.args_length,
        ) + crate::protocol::wire::spec_le32(self.max_count) + spec_zeros(4)
            + crate::protocol::wire::spec_le32(self.actual_count) + self.pnio_header.spec_encoding()
            + (match self.pnio_data {
            Some(d) => d@,
            None => Seq::empty(),
        })
    }

    fn concat(&self) -> (r: Vec<u8>) {
        let mut v: Vec<u8> = Vec::new();
        let am = match self.args_max {
            Some(a) => a,
            None => {
                // Ruled out by `valid`: only requests are rendered.
                assert(false);
                0
            },
        };
        push_le32(&mut v, am);
        push_le32(&mut v, self.args_length);
        push_le32(&mut v, self.max_count);
        push_repeat(&mut v, 0x00, 4);
        push_le32(&mut v, self.actual_count);
        let header_bytes = self.pnio_header.concat();
        push_vec(&mut v, &header_bytes);
        match &self.pnio_data {
            Some(d) => {
                push_vec(&mut v, d);
            },
            None => {},
        }
        assert(v@ =~= self.spec_encoding());
        v
    }

    fn size(&self) -> (r: usize) {
        let data_len = match &self.pnio_data {
            Some(d) => d.len(),
            None => 0,
        };
        20 + self.pnio_header.size() + data_len
    }
}

} // verus!
