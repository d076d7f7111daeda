//! Bit fields of the packed one-byte registers.

use vstd::prelude::*;

verus! {

/// Bits 7:5 of a register byte.
pub open spec fn field_7_5(byte: u8) -> u8 {
    byte / 32
}

/// Bits 4:2 of a register byte.
pub open spec fn field_4_2(byte: u8) -> u8 {
    (byte / 4) % 8
}

/// Bits 1:0 of a register byte.
pub open spec fn field_1_0(byte: u8) -> u8 {
    byte % 4
}

/// Masking and shifting a byte reads the same fields as dividing it.
pub proof fn lemma_fields_by_mask(byte: u8)
    by (bit_vector)
    ensures
        (byte & (0b111u8 << 5u8)) >> 5u8 == byte / 32,
        (byte & (0b111u8 << 2u8)) >> 2u8 == (byte / 4) % 8,
        byte & 0b11u8 == byte % 4,
{
}

/// Shifting three fields into place and joining them adds them up, the top
/// field keeping its low three bits only.
pub proof fn lemma_pack_fields(high: u8, middle: u8, low: u8)
    by (bit_vector)
    requires
        middle < 8,
        low < 4,
    ensures
        (high << 5u8) | (middle << 2u8) | low == (high % 8) * 32 + middle * 4 + low,
{
}

} // verus!
