//! Bit-range extraction from 32-bit words, through the `bit_field` crate.

use vstd::prelude::*;

use bit_field::BitField;

verus! {

use vstd::arithmetic::power2::pow2;

/// Relies on `bit_field::BitField::get_bits` for `u32`: for `lo < hi <= 32`
/// it returns `(v << (32 - hi)) >> (32 - hi) >> lo`, that is the bits of `v`
/// from `lo` (inclusive) to `hi` (exclusive), shifted down to bit zero.
#[verifier::external_body]
pub(crate) fn get_bits_u32(v: u32, lo: usize, hi: usize) -> (r: u32)
    requires
        lo < hi,
        hi <= 32,
    ensures
        r as nat == ((v as nat) / pow2(lo as nat)) % pow2((hi - lo) as nat),
{
    v.get_bits(lo..hi)
}

/// An eight-bit field of a word is below 256, so masking it with `0xff`
/// keeps it unchanged and it fits in a `u8`.
pub proof fn lemma_word_field_fits_byte(w: u32, lo: nat)
    ensures
        crate::word_field(w, lo, 8) < 256,
        forall|b: u32| b < 256 ==> #[trigger] (b & 0xff) == b,
{
    vstd::arithmetic::power2::lemma2_to64();
    vstd::arithmetic::div_mod::lemma_mod_bound((w as nat / pow2(lo)) as int, pow2(8) as int);
    assert forall|b: u32| b < 256 implies #[trigger] (b & 0xff) == b by {
        assert(b < 256 ==> (b & 0xff) == b) by (bit_vector);
    }
}

} // verus!
