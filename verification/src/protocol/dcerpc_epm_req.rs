//! The endpoint-mapper lookup request stub: all fields are fixed except
//! the 20-byte context handle, which starts as zeros and thereafter echoes
//! what the server returned.

use vstd::prelude::*;
use crate::protocol::packet::Packet;
use crate::protocol::wire::{push_be16, push_bytes, push_le32, push_repeat, spec_be16, spec_le32,
    spec_zeros};

verus! {

pub struct DceRpcEpmRequest {
    pub handle: [u8; 20],
}

impl DceRpcEpmRequest {
    pub fn new(handle: [u8; 20]) -> (r: Self)
        ensures
            r.handle == handle,
    {
        DceRpcEpmRequest { handle }
    }
}

impl Packet for DceRpcEpmRequest {
    open spec fn valid(&self) -> bool {
        true
    }

    /// Inquiry type 0, object reference id 1 with a zero object UUID,
    /// interface reference id 2 with a zero interface UUID, interface
    /// version 0.0, version option 1, the context handle, and max
    /// entries 1.
    open spec fn spec_encoding(&self) -> Seq<u8> {
        spec_zeros(4) + spec_le32(1) + spec_zeros(16) + spec_le32(2) + spec_zeros(16) + spec_be16(
            0,
        ) + spec_be16(0) + spec_le32(1) + self.handle@ + spec_le32(1)
    }

    fn concat(&self) -> (r: Vec<u8>) {
        let mut v: Vec<u8> = Vec::new();
        push_repeat(&mut v, 0x00, 4);
        push_le32(&mut v, 1);
        push_repeat(&mut v, 0x00, 16);
        push_le32(&mut v, 2);
        push_repeat(&mut v, 0x00, 16);
        push_be16(&mut v, 0);
        push_be16(&mut v, 0);
        push_le32(&mut v, 1);
        push_bytes(&mut v, &self.handle);
        push_le32(&mut v, 1);
        assert(v@ =~= self.spec_encoding());
        v
    }

    fn size(&self) -> (r: usize) {
        assert(self.spec_encoding().len() == 76);
        76
    }
}

} // verus!
