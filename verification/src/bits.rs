//! Small facts about bitwise operations on the machine's 8-bit and 16-bit
//! words, proved once here and used ambiently by the rest of the crate.

use vstd::prelude::*;

verus! {

/// A byte masked by `m` never exceeds `m`.
pub broadcast proof fn lemma_u8_and_bound(x: u8, m: u8)
    ensures
        #[trigger] (x & m) <= m,
{
    assert(x & m <= m) by (bit_vector);
}

/// A 16-bit word masked by `m` never exceeds `m`.
pub broadcast proof fn lemma_u16_and_bound(x: u16, m: u16)
    ensures
        #[trigger] (x & m) <= m,
{
    assert(x & m <= m) by (bit_vector);
}

/// The 3-bit field at bits 3-5 of an opcode is below 8, so it is a valid
/// shift amount for a byte.
pub broadcast proof fn lemma_u8_bit_field(x: u8)
    ensures
        #[trigger] ((x & 0x38) >> 3) < 8,
{
    assert((x & 0x38) >> 3 < 8) by (bit_vector);
}

} // verus!
