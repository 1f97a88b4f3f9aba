//! Read-modify-write discipline for bit-packed control registers: replacing
//! one field of a register byte while every other bit stays as it was.

use vstd::prelude::*;

verus! {

/// Replaces the field covered by `mask` in `old_byte` with `field_bits`,
/// keeping every bit outside the mask exactly as it was:
/// `new_byte == (old_byte & inverse_mask) | field_bits`.
pub fn apply_field(old_byte: u8, mask: u8, inverse_mask: u8, field_bits: u8) -> (new_byte: u8)
    requires
        inverse_mask == !mask,
        field_bits & mask == field_bits,
    ensures
        new_byte == (old_byte & inverse_mask) | field_bits,
        new_byte & inverse_mask == old_byte & inverse_mask,
        new_byte & mask == field_bits,
{
    proof {
        lemma_apply_field(old_byte, mask, inverse_mask, field_bits);
    }
    (old_byte & inverse_mask) | field_bits
}

/// Law: a single-field write leaves the bits outside the field's mask
/// unchanged, and the bits inside the mask are exactly the new field bits.
pub proof fn lemma_apply_field(old_byte: u8, mask: u8, inverse_mask: u8, field_bits: u8)
    requires
        inverse_mask == !mask,
        field_bits & mask == field_bits,
    ensures
        ((old_byte & inverse_mask) | field_bits) & inverse_mask == old_byte & inverse_mask,
        ((old_byte & inverse_mask) | field_bits) & mask == field_bits,
{
    assert(((old_byte & !mask) | field_bits) & !mask == old_byte & !mask && ((old_byte & !mask)
        | field_bits) & mask == field_bits) by (bit_vector)
        requires
            field_bits & mask == field_bits,
    ;
}

/// The complement facts for the concrete field masks this driver uses, so
/// that callers of `apply_field` can discharge its `inverse_mask == !mask`
/// obligation without their own bit-level reasoning.
pub proof fn lemma_mask_complements()
    ensures
        !0b0000_1100u8 == 0b1111_0011u8,
        !0b1111_0000u8 == 0b0000_1111u8,
        !0b0000_1111u8 == 0b1111_0000u8,
        !0b0000_0010u8 == 0b1111_1101u8,
{
    assert(!0b0000_1100u8 == 0b1111_0011u8 && !0b1111_0000u8 == 0b0000_1111u8 && !0b0000_1111u8
        == 0b1111_0000u8 && !0b0000_0010u8 == 0b1111_1101u8) by (bit_vector);
}

} // verus!
