//! Words put together from table bytes.

use vstd::prelude::*;

verus! {

/// The 16-bit word with `lo` as its low and `hi` as its high byte.
pub open spec fn word_of(lo: u8, hi: u8) -> u16 {
    (lo as int + 256 * hi as int) as u16
}

pub fn word(lo: u8, hi: u8) -> (w: u16)
    ensures
        w == word_of(lo, hi),
{
    let w = (hi as u16) << 8 | (lo as u16);
    assert(((hi as u16) << 8 | (lo as u16)) == (lo as u16) + 256 * (hi as u16)) by (bit_vector);
    w
}

/// The two halves of a byte, by shifting and masking and by arithmetic.
pub proof fn lemma_nibbles(b: u8)
    by (bit_vector)
    ensures
        b >> 4 == b / 16,
        b & 0xf == b % 16,
        (b >> 0u8) & 0xf == b % 16,
        (b >> 4u8) & 0xf == b / 16,
{
}

} // verus!
