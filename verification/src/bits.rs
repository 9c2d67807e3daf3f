//! Bit fields of a 32-bit register word.

use vstd::prelude::*;

verus! {

/// The word whose `width` lowest bits are set.
pub open spec fn low_mask(width: u32) -> u32 {
    if width >= 32 {
        0xFFFF_FFFFu32
    } else {
        !(0xFFFF_FFFFu32 << width)
    }
}

/// The mask of the field that is `width` bits wide and starts at bit `offset`.
pub open spec fn field_mask(offset: u32, width: u32) -> u32 {
    low_mask(width) << offset
}

/// The value held by the field of `word` at `offset`.
pub open spec fn field_of(word: u32, offset: u32, width: u32) -> u32 {
    (word >> offset) & low_mask(width)
}

/// `word` with the field at `offset` replaced by the low bits of `value`.
pub open spec fn with_field(word: u32, offset: u32, width: u32, value: u32) -> u32 {
    (word & !field_mask(offset, width)) | ((value & low_mask(width)) << offset)
}

/// Whether a field lies inside a 32-bit word.
pub open spec fn field_fits(offset: u32, width: u32) -> bool {
    1 <= width && offset + width <= 32
}

/// Whether two fields share no bit.
pub open spec fn fields_disjoint(offset: u32, width: u32, other_offset: u32, other_width: u32) -> bool {
    offset + width <= other_offset || other_offset + other_width <= offset
}

/// Computes the word whose `width` lowest bits are set.
pub fn low_bits(width: u32) -> (low: u32)
    ensures
        low == low_mask(width),
{
    if width >= 32 {
        0xFFFF_FFFFu32
    } else {
        !(0xFFFF_FFFFu32 << width)
    }
}

/// Computes the mask of a field.
pub fn mask(offset: u32, width: u32) -> (m: u32)
    requires
        field_fits(offset, width),
    ensures
        m == field_mask(offset, width),
{
    low_bits(width) << offset
}

/// Reads a field out of a register word.
pub fn read_field(word: u32, offset: u32, width: u32) -> (value: u32)
    requires
        field_fits(offset, width),
    ensures
        value == field_of(word, offset, width),
        value <= low_mask(width),
{
    let low: u32 = low_bits(width);
    let shifted: u32 = word >> offset;
    assert(shifted & low <= low) by (bit_vector);
    shifted & low
}

/// Replaces a field of a register word, leaving every other bit as it was.
pub fn write_field(word: u32, offset: u32, width: u32, value: u32) -> (updated: u32)
    requires
        field_fits(offset, width),
    ensures
        updated == with_field(word, offset, width, value),
{
    (word & !mask(offset, width)) | ((value & low_bits(width)) << offset)
}

/// A field that was written reads back as the low bits of what was written.
pub proof fn lemma_field_reads_back(word: u32, offset: u32, width: u32, value: u32)
    requires
        field_fits(offset, width),
    ensures
        field_of(with_field(word, offset, width, value), offset, width) == value & low_mask(width),
{
    assert(field_of(with_field(word, offset, width, value), offset, width) == value & low_mask(
        width,
    )) by (bit_vector)
        requires
            1 <= width,
            offset + width <= 32,
    ;
}

/// Writing one field leaves every field that shares no bit with it unchanged.
pub proof fn lemma_other_field_kept(
    word: u32,
    offset: u32,
    width: u32,
    value: u32,
    other_offset: u32,
    other_width: u32,
)
    requires
        field_fits(offset, width),
        field_fits(other_offset, other_width),
        fields_disjoint(offset, width, other_offset, other_width),
    ensures
        field_of(with_field(word, offset, width, value), other_offset, other_width) == field_of(
            word,
            other_offset,
            other_width,
        ),
{
    assert(field_of(with_field(word, offset, width, value), other_offset, other_width) == field_of(
        word,
        other_offset,
        other_width,
    )) by (bit_vector)
        requires
            1 <= width,
            offset + width <= 32,
            1 <= other_width,
            other_offset + other_width <= 32,
            offset + width <= other_offset || other_offset + other_width <= offset,
    ;
}

/// Writing a field changes no bit outside the field's mask.
pub proof fn lemma_outside_bits_kept(word: u32, offset: u32, width: u32, value: u32)
    requires
        field_fits(offset, width),
    ensures
        with_field(word, offset, width, value) & !field_mask(offset, width) == word & !field_mask(
            offset,
            width,
        ),
{
    assert(with_field(word, offset, width, value) & !field_mask(offset, width) == word
        & !field_mask(offset, width)) by (bit_vector)
        requires
            1 <= width,
            offset + width <= 32,
    ;
}

} // verus!
