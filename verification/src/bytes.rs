//! Small verified helpers on byte vectors.

use vstd::prelude::*;

verus! {

/// Append all of `src` to `dst`.
pub fn push_all(dst: &mut Vec<u8>, src: &[u8])
    ensures
        final(dst)@ == old(dst)@ + src@,
{
    let mut k: usize = 0;
    while k < src.len()
        invariant
            k <= src@.len(),
            dst@ == old(dst)@ + src@.subrange(0, k as int),
        decreases src@.len() - k,
    {
        dst.push(src[k]);
        k = k + 1;
        proof {
            assert(src@.subrange(0, k as int) == src@.subrange(0, k - 1).push(src@[k - 1]));
        }
    }
    proof {
        assert(src@.subrange(0, src@.len() as int) == src@);
    }
}

/// An owned copy of `src`.
pub fn copy_bytes(src: &Vec<u8>) -> (r: Vec<u8>)
    ensures
        r@ == src@,
{
    let mut out: Vec<u8> = Vec::new();
    push_all(&mut out, src.as_slice());
    out
}

/// The 16-bit value stored little-endian as `lo`, `hi`.
pub open spec fn spec_u16_le(lo: u8, hi: u8) -> u16 {
    (lo + hi * 256) as u16
}

/// Assemble a 16-bit value from its little-endian bytes.
pub fn u16_from_le(lo: u8, hi: u8) -> (r: u16)
    ensures
        r == spec_u16_le(lo, hi),
{
    (lo as u16) + (hi as u16) * 256
}

/// The two little-endian bytes of a 16-bit value.
pub open spec fn spec_u16_bytes(x: u16) -> Seq<u8> {
    seq![(x & 0xff) as u8, ((x >> 8) & 0xff) as u8]
}

/// The four little-endian bytes of a 32-bit value.
pub open spec fn spec_u32_bytes(x: u32) -> Seq<u8> {
    seq![
        (x & 0xff) as u8,
        ((x >> 8) & 0xff) as u8,
        ((x >> 16) & 0xff) as u8,
        ((x >> 24) & 0xff) as u8,
    ]
}

/// Append a 16-bit value little-endian.
pub fn push_u16_le(dst: &mut Vec<u8>, x: u16)
    ensures
        final(dst)@ == old(dst)@ + spec_u16_bytes(x),
{
    dst.push((x & 0xff) as u8);
    dst.push(((x >> 8) & 0xff) as u8);
    proof {
        assert(dst@ =~= old(dst)@ + spec_u16_bytes(x));
    }
}

/// Append a 32-bit value little-endian.
pub fn push_u32_le(dst: &mut Vec<u8>, x: u32)
    ensures
        final(dst)@ == old(dst)@ + spec_u32_bytes(x),
{
    dst.push((x & 0xff) as u8);
    dst.push(((x >> 8) & 0xff) as u8);
    dst.push(((x >> 16) & 0xff) as u8);
    dst.push(((x >> 24) & 0xff) as u8);
    proof {
        assert(dst@ =~= old(dst)@ + spec_u32_bytes(x));
    }
}

} // verus!
