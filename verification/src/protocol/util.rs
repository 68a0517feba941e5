//! The HART longitudinal XOR checksum.

use vstd::prelude::*;

verus! {

/// The XOR of all bytes of `b` (0 for the empty sequence).
pub open spec fn spec_xor(b: Seq<u8>) -> u8
    decreases b.len(),
{
    if b.len() == 0 {
        0
    } else {
        spec_xor(b.drop_last()) ^ b.last()
    }
}

/// XOR of the bytes of `bytes` from `start` to the end.
pub fn xor_range(bytes: &Vec<u8>, start: usize) -> (r: u8)
    requires
        start <= bytes@.len(),
    ensures
        r == spec_xor(bytes@.subrange(start as int, bytes@.len() as int)),
{
    let n: usize = bytes.len();
    let mut acc: u8 = 0;
    let mut i: usize = start;
    assert(bytes@.subrange(start as int, start as int) =~= Seq::<u8>::empty());
    while i < n
        invariant
            start <= i <= n,
            n == bytes@.len(),
            acc == spec_xor(bytes@.subrange(start as int, i as int)),
        decreases n - i,
    {
        acc = acc ^ bytes[i];
        assert(bytes@.subrange(start as int, i + 1 as int).drop_last() =~= bytes@.subrange(
            start as int,
            i as int,
        ));
        i = i + 1;
    }
    acc
}

/// The XOR accumulator over all bytes of `bytes`.
pub fn generate_xor_checksum(bytes: &Vec<u8>) -> (r: u8)
    ensures
        r == spec_xor(bytes@),
{
    let r = xor_range(bytes, 0);
    assert(bytes@.subrange(0, bytes@.len() as int) =~= bytes@);
    r
}

/// Appending the XOR of a byte sequence to that sequence drives the XOR
/// accumulator over the whole to zero.
pub proof fn lemma_xor_self_cancels(b: Seq<u8>)
    ensures
        spec_xor(b.push(spec_xor(b))) == 0,
{
    let x = spec_xor(b);
    assert(b.push(x).drop_last() =~= b);
    assert(b.push(x).last() == x);
    assert(spec_xor(b.push(x)) == x ^ x);
    assert(x ^ x == 0) by (bit_vector);
}

} // verus!
