//! The capability shared by every encodable packet: a validity predicate,
//! the byte sequence it stands for, and an encoder proved against it.

use vstd::prelude::*;

verus! {

pub trait Packet {
    /// The values that can be rendered on the wire.
    spec fn valid(&self) -> bool;

    /// The exact byte sequence this packet encodes to.
    spec fn spec_encoding(&self) -> Seq<u8>;

    /// Renders the packet on the wire.
    fn concat(&self) -> (r: Vec<u8>)
        requires
            self.valid(),
        ensures
            r@ == self.spec_encoding(),
    ;

    /// The length of the wire rendering.
    fn size(&self) -> (r: usize)
        requires
            self.valid(),
        ensures
            r == self.spec_encoding().len(),
    ;
}

} // verus!
