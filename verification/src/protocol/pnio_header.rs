//! The capability shared by the blocks a PNIO envelope can carry, and the
//! enum that dispatches over them. Besides its encoding, each block
//! determines the four counts of the envelope around it.

use vstd::prelude::*;
use crate::protocol::pnio_header_arblock_req::ArBlockReq;
use crate::protocol::pnio_header_arblock_res::ArBlockRes;
use crate::protocol::pnio_header_iod_req::IodReq;
use crate::protocol::pnio_header_iod_res::IodRes;

verus! {

pub trait PnioHeader {
    /// The values that can be rendered on the wire.
    spec fn valid(&self) -> bool;

    /// The exact byte sequence this block encodes to.
    spec fn spec_encoding(&self) -> Seq<u8>;

    /// The `max_count` the envelope around this block carries.
    spec fn spec_max_count(&self) -> u32;

    /// The `actual_count` the envelope around this block carries.
    spec fn spec_actual_count(&self) -> u32;

    /// The `args_length` the envelope around this block carries.
    spec fn spec_args_length(&self) -> u32;

    /// The `args_max` of the envelope; only requests have one.
    spec fn spec_args_max(&self) -> Option<u32>;

    fn concat(&self) -> (r: Vec<u8>)
        requires
            self.valid(),
        ensures
            r@ == self.spec_encoding(),
    ;

    fn size(&self) -> (r: usize)
        requires
            self.valid(),
        ensures
            r == self.spec_encoding().len(),
    ;

    fn get_max_count(&self) -> (r: u32)
        requires
            self.valid(),
        ensures
            r == self.spec_max_count(),
    ;

    fn get_actual_count(&self) -> (r: u32)
        requires
            self.valid(),
        ensures
            r == self.spec_actual_count(),
    ;

    fn get_args_length(&self) -> (r: u32)
        requires
            self.valid(),
        ensures
            r == self.spec_args_length(),
    ;

    fn get_args_max(&self) -> (r: Option<u32>)
        requires
            self.valid(),
        ensures
            r == self.spec_args_max(),
    ;
}

/// One of the block kinds a PNIO envelope can carry.
pub enum PnioHeaderEnum {
    ArBlockReq(ArBlockReq),
    ArBlockRes(ArBlockRes),
    IodReq(IodReq),
    IodRes(IodRes),
}

impl PnioHeader for PnioHeaderEnum {
    open spec fn valid(&self) -> bool {
        match self {
            PnioHeaderEnum::ArBlockReq(p) => p.valid(),
            PnioHeaderEnum::ArBlockRes(p) => p.valid(),
            PnioHeaderEnum::IodReq(p) => p.valid(),
            PnioHeaderEnum::IodRes(p) => p.valid(),
        }
    }

    open spec fn spec_encoding(&self) -> Seq<u8> {
        match self {
            PnioHeaderEnum::ArBlockReq(p) => p.spec_encoding(),
            PnioHeaderEnum::ArBlockRes(p) => p.spec_encoding(),
            PnioHeaderEnum::IodReq(p) => p.spec_encoding(),
            PnioHeaderEnum::IodRes(p) => p.spec_encoding(),
        }
    }

    open spec fn spec_max_count(&self) -> u32 {
        match self {
            PnioHeaderEnum::ArBlockReq(p) => p.spec_max_count(),
            PnioHeaderEnum::ArBlockRes(p) => p.spec_max_count(),
            PnioHeaderEnum::IodReq(p) => p.spec_max_count(),
            PnioHeaderEnum::IodRes(p) => p.spec_max_count(),
        }
    }

    open spec fn spec_actual_count(&self) -> u32 {
        match self {
            PnioHeaderEnum::ArBlockReq(p) => p.spec_actual_count(),
            PnioHeaderEnum::ArBlockRes(p) => p.spec_actual_count(),
            PnioHeaderEnum::IodReq(p) => p.spec_actual_count(),
            PnioHeaderEnum::IodRes(p) => p.spec_actual_count(),
        }
    }

    open spec fn spec_args_length(&self) -> u32 {
        match self {
            PnioHeaderEnum::ArBlockReq(p) => p.spec_args_length(),
            PnioHeaderEnum::ArBlockRes(p) => p.spec_args_length(),
            PnioHeaderEnum::IodReq(p) => p.spec_args_length(),
            PnioHeaderEnum::IodRes(p) => p.spec_args_length(),
        }
    }

    open spec fn spec_args_max(&self) -> Option<u32> {
        match self {
            PnioHeaderEnum::ArBlockReq(p) => p.spec_args_max(),
            PnioHeaderEnum::ArBlockRes(p) => p.spec_args_max(),
            PnioHeaderEnum::IodReq(p) => p.spec_args_max(),
            PnioHeaderEnum::IodRes(p) => p.spec_args_max(),
        }
    }

    fn concat(&self) -> (r: Vec<u8>) {
        match self {
            PnioHeaderEnum::ArBlockReq(p) => p.concat(),
            PnioHeaderEnum::ArBlockRes(p) => p.concat(),
            PnioHeaderEnum::IodReq(p) => p.concat(),
            PnioHeaderEnum::IodRes(p) => p.concat(),
        }
    }

    fn size(&self) -> (r: usize) {
        match self {
            PnioHeaderEnum::ArBlockReq(p) => p.size(),
            PnioHeaderEnum::ArBlockRes(p) => p.size(),
            PnioHeaderEnum::IodReq(p) => p.size(),
            PnioHeaderEnum::IodRes(p) => p.size(),
        }
    }

    fn get_max_count(&self) -> (r: u32) {
        match self {
            PnioHeaderEnum::ArBlockReq(p) => p.get_max_count(),
            PnioHeaderEnum::ArBlockRes(p) => p.get_max_count(),
            PnioHeaderEnum::IodReq(p) => p.get_max_count(),
            PnioHeaderEnum::IodRes(p) => p.get_max_count(),
        }
    }

    fn get_actual_count(&self) -> (r: u32) {
        match self {
            PnioHeaderEnum::ArBlockReq(p) => p.get_actual_count(),
            PnioHeaderEnum::ArBlockRes(p) => p.get_actual_count(),
            PnioHeaderEnum::IodReq(p) => p.get_actual_count(),
            PnioHeaderEnum::IodRes(p) => p.get_actual_count(),
        }
    }

    fn get_args_length(&self) -> (r: u32) {
        match self {
            PnioHeaderEnum::ArBlockReq(p) => p.get_args_length(),
            PnioHeaderEnum::ArBlockRes(p) => p.get_args_length(),
            PnioHeaderEnum::IodReq(p) => p.get_args_length(),
            PnioHeaderEnum::IodRes(p) => p.get_args_length(),
        }
    }

    fn get_args_max(&self) -> (r: Option<u32>) {
        match self {
            PnioHeaderEnum::ArBlockReq(p) => p.get_args_max(),
            PnioHeaderEnum::ArBlockRes(p) => p.get_args_max(),
            PnioHeaderEnum::IodReq(p) => p.get_args_max(),
            PnioHeaderEnum::IodRes(p) => p.get_args_max(),
        }
    }
}

} // verus!
