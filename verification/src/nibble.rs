//! Splitting a 16-bit instruction word into its four 4-bit fields.

use vstd::prelude::*;

verus! {

/// The four 4-bit fields of a word, highest first.
pub open spec fn spec_nibbles(w: u16) -> (u8, u8, u8, u8) {
    (
        ((w & 0xF000) >> 12) as u8,
        ((w & 0x0F00) >> 8) as u8,
        ((w & 0x00F0) >> 4) as u8,
        (w & 0x000F) as u8,
    )
}

/// A value that can be read as a sequence of 4-bit fields.
pub trait Nibble {
    /// What the fields of this value are, as a specification.
    spec fn nibbles(&self) -> (u8, u8, u8, u8);

    /// Split the value into its 4-bit fields, highest first.
    fn get_nibbles(&self) -> (r: (u8, u8, u8, u8))
        ensures
            r == self.nibbles(),
    ;
}

impl Nibble for u16 {
    open spec fn nibbles(&self) -> (u8, u8, u8, u8) {
        spec_nibbles(*self)
    }

    fn get_nibbles(&self) -> (r: (u8, u8, u8, u8))
        ensures
            r == self.nibbles(),
    {
        (
            ((*self & 0xF000) >> 12) as u8,
            ((*self & 0x0F00) >> 8) as u8,
            ((*self & 0x00F0) >> 4) as u8,
            (*self & 0x000F) as u8,
        )
    }
}

/// Every nibble is a 4-bit value, and the low 12 bits fit below 4096.
pub proof fn lemma_nibble_bounds(w: u16)
    ensures
        spec_nibbles(w).0 < 16,
        spec_nibbles(w).1 < 16,
        spec_nibbles(w).2 < 16,
        spec_nibbles(w).3 < 16,
        (w & 0x0FFF) < 4096,
{
    assert(((w & 0xF000) >> 12) < 16 && ((w & 0x0F00) >> 8) < 16 && ((w & 0x00F0) >> 4) < 16
        && (w & 0x000F) < 16 && (w & 0x0FFF) < 4096) by (bit_vector);
}

} // verus!
