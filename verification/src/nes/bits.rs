//! The ranges of the bit fields that registers are cut into.
use vstd::prelude::*;

verus! {

/// Each field cut out of a byte fits its width: the low nibble, the low
/// three bits, the top five bits, the top two bits and the two bits above
/// the lowest two.
pub proof fn lemma_byte_fields(x: u8)
    by (bit_vector)
    ensures
        x & 0x0F <= 15,
        x & 0x07 < 8,
        x >> 3u8 < 32,
        (x >> 6u8) & 0x03 == x >> 6u8,
        x >> 6u8 < 4,
        (x >> 2u8) & 0x03 < 4,
        0u8 < (1u8 << 0u8),
{
}

} // verus!
