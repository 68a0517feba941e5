//! Byte-order primitives shared by every packet codec: little- and
//! big-endian renderings of 16- and 32-bit integers, and the mixed-endian
//! byte order that DCE/RPC uses for UUID fields.

use vstd::prelude::*;

verus! {

/// The two bytes of `x` in little-endian order.
pub open spec fn spec_le16(x: u16) -> Seq<u8> {
    seq![(x % 256) as u8, (x / 256) as u8]
}

/// The two bytes of `x` in big-endian order.
pub open spec fn spec_be16(x: u16) -> Seq<u8> {
    seq![(x / 256) as u8, (x % 256) as u8]
}

/// The four bytes of `x` in little-endian order.
pub open spec fn spec_le32(x: u32) -> Seq<u8> {
    seq![
        (x % 256) as u8,
        ((x / 256) % 256) as u8,
        ((x / 65536) % 256) as u8,
        ((x / 16777216) % 256) as u8,
    ]
}

/// The four bytes of `x` in big-endian order.
pub open spec fn spec_be32(x: u32) -> Seq<u8> {
    seq![
        ((x / 16777216) % 256) as u8,
        ((x / 65536) % 256) as u8,
        ((x / 256) % 256) as u8,
        (x % 256) as u8,
    ]
}

/// The 16-bit value read little-endian from two bytes.
pub open spec fn spec_u16_le(b0: u8, b1: u8) -> u16 {
    (b0 + 256 * b1) as u16
}

/// The 16-bit value read big-endian from two bytes.
pub open spec fn spec_u16_be(b0: u8, b1: u8) -> u16 {
    (256 * b0 + b1) as u16
}

/// The 32-bit value read little-endian from four bytes.
pub open spec fn spec_u32_le(b0: u8, b1: u8, b2: u8, b3: u8) -> u32 {
    (b0 + 256 * b1 + 65536 * b2 + 16777216 * b3) as u32
}

/// The 32-bit value read big-endian from four bytes.
pub open spec fn spec_u32_be(b0: u8, b1: u8, b2: u8, b3: u8) -> u32 {
    (16777216 * b0 + 65536 * b1 + 256 * b2 + b3) as u32
}

/// Reading back a little-endian 16-bit rendering yields the value written.
pub proof fn lemma_le16_round_trip(x: u16)
    ensures
        spec_u16_le(spec_le16(x)[0], spec_le16(x)[1]) == x,
{
}

/// Reading back a big-endian 16-bit rendering yields the value written.
pub proof fn lemma_be16_round_trip(x: u16)
    ensures
        spec_u16_be(spec_be16(x)[0], spec_be16(x)[1]) == x,
{
}

/// Reading back a little-endian 32-bit rendering yields the value written.
pub proof fn lemma_le32_round_trip(x: u32)
    ensures
        spec_u32_le(spec_le32(x)[0], spec_le32(x)[1], spec_le32(x)[2], spec_le32(x)[3]) == x,
{
    assert(x == x % 256 + 256 * ((x / 256) % 256) + 65536 * ((x / 65536) % 256) + 16777216 * ((x
        / 16777216) % 256)) by (nonlinear_arith);
}

/// Reading back a big-endian 32-bit rendering yields the value written.
pub proof fn lemma_be32_round_trip(x: u32)
    ensures
        spec_u32_be(spec_be32(x)[0], spec_be32(x)[1], spec_be32(x)[2], spec_be32(x)[3]) == x,
{
    assert(x == x % 256 + 256 * ((x / 256) % 256) + 65536 * ((x / 65536) % 256) + 16777216 * ((x
        / 16777216) % 256)) by (nonlinear_arith);
}

/// Appends the little-endian bytes of `x` to `out`.
pub fn push_le16(out: &mut Vec<u8>, x: u16)
    ensures
        final(out)@ == old(out)@ + spec_le16(x),
{
    out.push((x % 256) as u8);
    out.push((x / 256) as u8);
    assert(out@ =~= old(out)@ + spec_le16(x));
}

/// Appends the big-endian bytes of `x` to `out`.
pub fn push_be16(out: &mut Vec<u8>, x: u16)
    ensures
        final(out)@ == old(out)@ + spec_be16(x),
{
    out.push((x / 256) as u8);
    out.push((x % 256) as u8);
    assert(out@ =~= old(out)@ + spec_be16(x));
}

/// Appends the little-endian bytes of `x` to `out`.
pub fn push_le32(out: &mut Vec<u8>, x: u32)
    ensures
        final(out)@ == old(out)@ + spec_le32(x),
{
    out.push((x % 256) as u8);
    out.push(((x / 256) % 256) as u8);
    out.push(((x / 65536) % 256) as u8);
    out.push(((x / 16777216) % 256) as u8);
    assert(out@ =~= old(out)@ + spec_le32(x));
}

/// Appends the big-endian bytes of `x` to `out`.
pub fn push_be32(out: &mut Vec<u8>, x: u32)
    ensures
        final(out)@ == old(out)@ + spec_be32(x),
{
    out.push(((x / 16777216) % 256) as u8);
    out.push(((x / 65536) % 256) as u8);
    out.push(((x / 256) % 256) as u8);
    out.push((x % 256) as u8);
    assert(out@ =~= old(out)@ + spec_be32(x));
}

/// Appends all bytes of the array `a` to `out`.
pub fn push_bytes<const N: usize>(out: &mut Vec<u8>, a: &[u8; N])
    ensures
        final(out)@ == old(out)@ + a@,
{
    let mut i: usize = 0;
    while i < N
        invariant
            i <= N,
            out@ == old(out)@ + a@.subrange(0, i as int),
        decreases N - i,
    {
        out.push(a[i]);
        assert(out@ =~= old(out)@ + a@.subrange(0, i + 1 as int));
        i = i + 1;
    }
    assert(out@ =~= old(out)@ + a@);
}

/// Appends all bytes of `src` to `out`.
pub fn push_vec(out: &mut Vec<u8>, src: &Vec<u8>)
    ensures
        final(out)@ == old(out)@ + src@,
{
    let mut i: usize = 0;
    while i < src.len()
        invariant
            i <= src.len(),
            out@ == old(out)@ + src@.subrange(0, i as int),
        decreases src.len() - i,
    {
        out.push(src[i]);
        assert(out@ =~= old(out)@ + src@.subrange(0, i + 1 as int));
        i = i + 1;
    }
    assert(out@ =~= old(out)@ + src@);
}

/// Appends `n` copies of `b` to `out`.
pub fn push_repeat(out: &mut Vec<u8>, b: u8, n: usize)
    ensures
        final(out)@ == old(out)@ + Seq::new(n as nat, |i: int| b),
{
    let mut i: usize = 0;
    while i < n
        invariant
            i <= n,
            out@ == old(out)@ + Seq::new(i as nat, |j: int| b),
        decreases n - i,
    {
        out.push(b);
        assert(out@ =~= old(out)@ + Seq::new((i + 1) as nat, |j: int| b));
        i = i + 1;
    }
}

/// Reads a 16-bit little-endian value at offset `i`.
pub fn read_u16_le(bytes: &Vec<u8>, i: usize) -> (r: u16)
    requires
        i + 2 <= bytes@.len(),
    ensures
        r == spec_u16_le(bytes@[i as int], bytes@[i + 1]),
{
    // Reading the length ties the view length to usize, which bounds
    // the index arithmetic below.
    let _n: usize = bytes.len();
    bytes[i] as u16 + 256 * (bytes[i + 1] as u16)
}

/// Reads a 16-bit big-endian value at offset `i`.
pub fn read_u16_be(bytes: &Vec<u8>, i: usize) -> (r: u16)
    requires
        i + 2 <= bytes@.len(),
    ensures
        r == spec_u16_be(bytes@[i as int], bytes@[i + 1]),
{
    let _n: usize = bytes.len();
    256 * (bytes[i] as u16) + bytes[i + 1] as u16
}

/// Reads a 32-bit little-endian value at offset `i`.
pub fn read_u32_le(bytes: &Vec<u8>, i: usize) -> (r: u32)
    requires
        i + 4 <= bytes@.len(),
    ensures
        r == spec_u32_le(bytes@[i as int], bytes@[i + 1], bytes@[i + 2], bytes@[i + 3]),
{
    let _n: usize = bytes.len();
    bytes[i] as u32 + 256 * (bytes[i + 1] as u32) + 65536 * (bytes[i + 2] as u32) + 16777216 * (
    bytes[i + 3] as u32)
}

/// Reads a 32-bit big-endian value at offset `i`.
pub fn read_u32_be(bytes: &Vec<u8>, i: usize) -> (r: u32)
    requires
        i + 4 <= bytes@.len(),
    ensures
        r == spec_u32_be(bytes@[i as int], bytes@[i + 1], bytes@[i + 2], bytes@[i + 3]),
{
    let _n: usize = bytes.len();
    16777216 * (bytes[i] as u32) + 65536 * (bytes[i + 1] as u32) + 256 * (bytes[i + 2] as u32)
        + bytes[i + 3] as u32
}

/// Copies `bytes[start .. start + n]` into a fresh vector.
pub fn copy_range(bytes: &Vec<u8>, start: usize, n: usize) -> (r: Vec<u8>)
    requires
        start + n <= bytes@.len(),
    ensures
        r@ == bytes@.subrange(start as int, start + n),
{
    let total: usize = bytes.len();
    let mut out: Vec<u8> = Vec::new();
    let mut i: usize = 0;
    while i < n
        invariant
            i <= n,
            start + n <= total,
            total == bytes@.len(),
            out@ == bytes@.subrange(start as int, start + i),
        decreases n - i,
    {
        out.push(bytes[start + i]);
        assert(out@ =~= bytes@.subrange(start as int, start + i + 1));
        i = i + 1;
    }
    out
}

/// A run of `n` zero bytes.
pub open spec fn spec_zeros(n: nat) -> Seq<u8> {
    Seq::new(n, |i: int| 0u8)
}

/// `s` brought to length `n`: truncated if longer, padded with zero
/// bytes if shorter.
pub open spec fn spec_resize_zero(s: Seq<u8>, n: nat) -> Seq<u8> {
    if n <= s.len() {
        s.subrange(0, n as int)
    } else {
        s + spec_zeros((n - s.len()) as nat)
    }
}

/// Reads two bytes at offset `start` into an array.
pub fn read_array2(bytes: &Vec<u8>, start: usize) -> (r: [u8; 2])
    requires
        start + 2 <= bytes@.len(),
    ensures
        r@ == bytes@.subrange(start as int, start + 2),
{
    let _n: usize = bytes.len();
    let r: [u8; 2] = [bytes[start], bytes[start + 1]];
    assert(r@ =~= bytes@.subrange(start as int, start + 2));
    r
}

/// Reads four bytes at offset `start` into an array.
pub fn read_array4(bytes: &Vec<u8>, start: usize) -> (r: [u8; 4])
    requires
        start + 4 <= bytes@.len(),
    ensures
        r@ == bytes@.subrange(start as int, start + 4),
{
    let _n: usize = bytes.len();
    let r: [u8; 4] = [bytes[start], bytes[start + 1], bytes[start + 2], bytes[start + 3]];
    assert(r@ =~= bytes@.subrange(start as int, start + 4));
    r
}

/// Reads six bytes at offset `start` into an array.
pub fn read_array6(bytes: &Vec<u8>, start: usize) -> (r: [u8; 6])
    requires
        start + 6 <= bytes@.len(),
    ensures
        r@ == bytes@.subrange(start as int, start + 6),
{
    let _n: usize = bytes.len();
    let r: [u8; 6] = [bytes[start], bytes[start + 1], bytes[start + 2], bytes[start + 3],
        bytes[start + 4], bytes[start + 5]];
    assert(r@ =~= bytes@.subrange(start as int, start + 6));
    r
}

/// Reads sixteen bytes at offset `start` into an array.
pub fn read_array16(bytes: &Vec<u8>, start: usize) -> (r: [u8; 16])
    requires
        start + 16 <= bytes@.len(),
    ensures
        r@ == bytes@.subrange(start as int, start + 16),
{
    let _n: usize = bytes.len();
    let r: [u8; 16] = [bytes[start], bytes[start + 1], bytes[start + 2], bytes[start + 3],
        bytes[start + 4], bytes[start + 5], bytes[start + 6], bytes[start + 7], bytes[start + 8],
        bytes[start + 9], bytes[start + 10], bytes[start + 11], bytes[start + 12], bytes[start
        + 13], bytes[start + 14], bytes[start + 15]];
    assert(r@ =~= bytes@.subrange(start as int, start + 16));
    r
}

/// Copies a 20-byte vector into an array.
pub fn vec_to_array20(v: &Vec<u8>) -> (r: [u8; 20])
    requires
        v@.len() == 20,
    ensures
        r@ == v@,
{
    let r: [u8; 20] = [v[0], v[1], v[2], v[3], v[4], v[5], v[6], v[7], v[8], v[9], v[10], v[11],
        v[12], v[13], v[14], v[15], v[16], v[17], v[18], v[19]];
    assert(r@ =~= v@);
    r
}

/// The DCE/RPC little-endian rendering of a UUID given in its standard
/// byte order: the first three fields are byte-swapped, the last eight
/// bytes stay as they are.
pub open spec fn spec_uuid_le(s: Seq<u8>) -> Seq<u8>
    recommends
        s.len() == 16,
{
    seq![s[3], s[2], s[1], s[0], s[5], s[4], s[7], s[6]] + s.subrange(8, 16)
}

/// Swapping the UUID field byte order twice restores the original bytes.
pub proof fn lemma_uuid_le_involution(s: Seq<u8>)
    requires
        s.len() == 16,
    ensures
        spec_uuid_le(spec_uuid_le(s)) == s,
{
    assert(spec_uuid_le(spec_uuid_le(s)) =~= s);
}

/// Reorders a standard-order UUID into DCE/RPC little-endian order (and
/// back, since the swap is an involution).
pub fn uuid_le(a: &[u8; 16]) -> (r: [u8; 16])
    ensures
        r@ == spec_uuid_le(a@),
{
    let r: [u8; 16] = [a[3], a[2], a[1], a[0], a[5], a[4], a[7], a[6], a[8], a[9], a[10], a[11],
        a[12], a[13], a[14], a[15]];
    assert(r@ =~= spec_uuid_le(a@));
    r
}

} // verus!
