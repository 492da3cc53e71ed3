//! Little-endian encodings of fixed-width integers.

use vstd::prelude::*;

verus! {

/// The four little-endian bytes of a 32-bit value.
pub open spec fn le32(v: u32) -> Seq<u8> {
    seq![(v % 256) as u8, ((v / 256) % 256) as u8, ((v / 65536) % 256) as u8, (v / 16777216) as u8]
}

/// The 32-bit value of four little-endian bytes (the first four of `b`).
pub open spec fn from_le32(b: Seq<u8>) -> u32
    recommends
        b.len() >= 4,
{
    (b[0] as int + 256 * b[1] as int + 65536 * b[2] as int + 16777216 * b[3] as int) as u32
}

/// Decoding the encoding of a value gives the value back.
pub proof fn lemma_le32_roundtrip(v: u32)
    ensures
        from_le32(le32(v)) == v,
        le32(v).len() == 4,
{
    let b0 = (v % 256) as u8;
    let b1 = ((v / 256) % 256) as u8;
    let b2 = ((v / 65536) % 256) as u8;
    let b3 = (v / 16777216) as u8;
    assert(b0 as int + 256 * b1 as int + 65536 * b2 as int + 16777216 * b3 as int == v) by (nonlinear_arith)
        requires
            b0 == v % 256,
            b1 == (v / 256) % 256,
            b2 == (v / 65536) % 256,
            b3 == v / 16777216,
            v <= 0xffff_ffff,
    {
    }
}

/// Encoding the value of four bytes gives the bytes back.
pub proof fn lemma_le32_inverse(b: Seq<u8>)
    requires
        b.len() == 4,
    ensures
        le32(from_le32(b)) == b,
{
    let (b0, b1, b2, b3) = (b[0], b[1], b[2], b[3]);
    let v: int = b0 as int + 256 * b1 as int + 65536 * b2 as int + 16777216 * b3 as int;
    assert(0 <= v <= 0xffff_ffff);
    assert(v % 256 == b0 && (v / 256) % 256 == b1 && (v / 65536) % 256 == b2 && v / 16777216 == b3)
        by (nonlinear_arith)
        requires
            v == b0 as int + 256 * b1 as int + 65536 * b2 as int + 16777216 * b3 as int,
            b0 < 256, b1 < 256, b2 < 256, b3 < 256,
    {
    }
    assert(le32(from_le32(b)) =~= b);
}

/// The little-endian bytes of a 32-bit value.
pub fn u32_to_le(v: u32) -> (r: [u8; 4])
    ensures
        r@ == le32(v),
{
    assert(v & 0xffu32 == v % 256) by (bit_vector);
    assert((v >> 8u32) & 0xffu32 == (v / 256) % 256) by (bit_vector);
    assert((v >> 16u32) & 0xffu32 == (v / 65536) % 256) by (bit_vector);
    assert((v >> 24u32) & 0xffu32 == v / 16777216) by (bit_vector);
    let r: [u8; 4] = [
        (v & 0xff) as u8,
        ((v >> 8u32) & 0xff) as u8,
        ((v >> 16u32) & 0xff) as u8,
        ((v >> 24u32) & 0xff) as u8,
    ];
    assert(r@ =~= le32(v));
    r
}

/// The 32-bit value of the four little-endian bytes of `b` at `off`.
pub fn u32_from_le(b: &[u8], off: usize) -> (r: u32)
    requires
        off + 4 <= b@.len(),
    ensures
        r == from_le32(b@.subrange(off as int, off + 4)),
{
    let b0 = b[off] as u32;
    let b1 = b[off + 1] as u32;
    let b2 = b[off + 2] as u32;
    let b3 = b[off + 3] as u32;
    assert(b0 < 256 && b1 < 256 && b2 < 256 && b3 < 256 ==> (b0 | (b1 << 8u32) | (b2 << 16u32) | (b3 << 24u32))
        == b0 + 256 * b1 + 65536 * b2 + 16777216 * b3) by (bit_vector);
    b0 | (b1 << 8u32) | (b2 << 16u32) | (b3 << 24u32)
}

/// Writes `bytes` into `dest` at `offset`.
pub fn write_bytes(dest: &mut [u8], offset: usize, bytes: &[u8])
    requires
        offset + bytes@.len() <= old(dest)@.len(),
    ensures
        final(dest)@ == old(dest)@.take(offset as int) + bytes@ + old(dest)@.skip(offset + bytes@.len()),
{
    let ghost d0 = dest@;
    let n: usize = dest.len();
    let mut i: usize = 0;
    while i < bytes.len()
        invariant
            i <= bytes@.len(),
            n == d0.len(),
            offset + bytes@.len() <= d0.len(),
            dest@ == d0.take(offset as int) + bytes@.take(i as int) + d0.skip(offset + i),
        decreases bytes@.len() - i,
    {
        dest[offset + i] = bytes[i];
        assert(dest@ =~= d0.take(offset as int) + bytes@.take(i + 1) + d0.skip(offset + i + 1));
        i += 1;
    }
    assert(bytes@.take(i as int) =~= bytes@);
}

/// The encoding of a value is little-endian: four bytes, least
/// significant first, whose weighted sum is the value; decoding weighs the
/// first four bytes the same way.
pub proof fn lemma_le32_little_endian(v: u32, b: Seq<u8>)
    requires
        b.len() >= 4,
    ensures
        le32(v).len() == 4,
        le32(v)[0] as int + 256 * le32(v)[1] as int + 65536 * le32(v)[2] as int + 16777216 * le32(v)[3] as int
            == v,
        from_le32(b) as int == b[0] as int + 256 * b[1] as int + 65536 * b[2] as int + 16777216 * b[3] as int,
{
    lemma_le32_roundtrip(v);
}

} // verus!
