//! Bit fields inside one register byte.
//!
//! A field is given by the position of its lowest bit (`offset`) and its number of
//! bits (`width`). Every register accessor of this crate reads and writes its field
//! through `get_bits` and `put_bits`.
use vstd::prelude::*;

verus! {

/// A field that fits in one byte: at least one bit wide, ending at or below bit 7.
pub open spec fn valid_field(offset: u8, width: u8) -> bool {
    1 <= width && offset + width <= 8
}

/// The `width` lowest bits set.
pub open spec fn low_mask(width: u8) -> u8 {
    0xffu8 >> ((8 - width) as u8)
}

/// The bits of `byte` covered by the field, shifted down to bit 0.
pub open spec fn get_field(byte: u8, offset: u8, width: u8) -> u8 {
    (byte >> offset) & low_mask(width)
}

/// `byte` with the bits of the field replaced by the low `width` bits of `value`.
pub open spec fn put_field(byte: u8, offset: u8, width: u8, value: u8) -> u8 {
    (byte & !(low_mask(width) << offset)) | ((value & low_mask(width)) << offset)
}

/// Two fields that share no bit.
pub open spec fn disjoint_fields(offset1: u8, width1: u8, offset2: u8, width2: u8) -> bool {
    offset1 + width1 <= offset2 || offset2 + width2 <= offset1
}

/// Reads the field at `offset` of `width` bits out of `byte`.
pub fn get_bits(byte: u8, offset: u8, width: u8) -> (r: u8)
    requires
        valid_field(offset, width),
    ensures
        r == get_field(byte, offset, width),
        r <= low_mask(width),
{
    proof {
        lemma_get_field_bound(byte, offset, width);
    }
    (byte >> offset) & (0xffu8 >> (8 - width))
}

/// Writes the low `width` bits of `value` into the field at `offset` of `byte`.
pub fn put_bits(byte: u8, offset: u8, width: u8, value: u8) -> (r: u8)
    requires
        valid_field(offset, width),
    ensures
        r == put_field(byte, offset, width, value),
{
    let mask: u8 = 0xffu8 >> (8 - width);
    (byte & !(mask << offset)) | ((value & mask) << offset)
}

/// A field never reads back more than its width holds.
pub proof fn lemma_get_field_bound(byte: u8, offset: u8, width: u8)
    requires
        valid_field(offset, width),
    ensures
        get_field(byte, offset, width) <= low_mask(width),
{
    assert(((byte >> offset) & (0xffu8 >> ((8 - width) as u8))) <= (0xffu8 >> ((8 - width) as u8)))
        by (bit_vector);
}

/// Reading a field right after writing it gives back the written value, cut to the
/// width of the field.
pub proof fn lemma_get_put_same(byte: u8, offset: u8, width: u8, value: u8)
    requires
        valid_field(offset, width),
    ensures
        get_field(put_field(byte, offset, width, value), offset, width) == value & low_mask(width),
{
    assert((((byte & !((0xffu8 >> ((8 - width) as u8)) << offset)) | ((value & (0xffu8 >> ((8
        - width) as u8))) << offset)) >> offset) & (0xffu8 >> ((8 - width) as u8)) == value & (0xffu8
        >> ((8 - width) as u8))) by (bit_vector)
        requires
            1 <= width,
            offset + width <= 8,
    ;
}

/// Writing a field leaves every field that shares no bit with it as it was.
pub proof fn lemma_get_put_other(
    byte: u8,
    offset: u8,
    width: u8,
    value: u8,
    other_offset: u8,
    other_width: u8,
)
    requires
        valid_field(offset, width),
        valid_field(other_offset, other_width),
        disjoint_fields(offset, width, other_offset, other_width),
    ensures
        get_field(put_field(byte, offset, width, value), other_offset, other_width) == get_field(
            byte,
            other_offset,
            other_width,
        ),
{
    assert((((byte & !((0xffu8 >> ((8 - width) as u8)) << offset)) | ((value & (0xffu8 >> ((8
        - width) as u8))) << offset)) >> other_offset) & (0xffu8 >> ((8 - other_width) as u8)) == (
    byte >> other_offset) & (0xffu8 >> ((8 - other_width) as u8))) by (bit_vector)
        requires
            1 <= width,
            offset + width <= 8,
            1 <= other_width,
            other_offset + other_width <= 8,
            offset + width <= other_offset || other_offset + other_width <= offset,
    ;
}

/// Writing back what a field holds leaves the byte unchanged.
pub proof fn lemma_put_get_same(byte: u8, offset: u8, width: u8)
    requires
        valid_field(offset, width),
    ensures
        put_field(byte, offset, width, get_field(byte, offset, width)) == byte,
{
    assert(((byte & !((0xffu8 >> ((8 - width) as u8)) << offset)) | ((((byte >> offset) & (0xffu8
        >> ((8 - width) as u8))) & (0xffu8 >> ((8 - width) as u8))) << offset)) == byte)
        by (bit_vector)
        requires
            1 <= width,
            offset + width <= 8,
    ;
}

/// A second write of the same field replaces the first.
pub proof fn lemma_put_put(byte: u8, offset: u8, width: u8, first: u8, second: u8)
    requires
        valid_field(offset, width),
    ensures
        put_field(put_field(byte, offset, width, first), offset, width, second) == put_field(
            byte,
            offset,
            width,
            second,
        ),
{
    assert(((((byte & !((0xffu8 >> ((8 - width) as u8)) << offset)) | ((first & (0xffu8 >> ((8
        - width) as u8))) << offset)) & !((0xffu8 >> ((8 - width) as u8)) << offset)) | ((second & (
    0xffu8 >> ((8 - width) as u8))) << offset)) == ((byte & !((0xffu8 >> ((8 - width) as u8))
        << offset)) | ((second & (0xffu8 >> ((8 - width) as u8))) << offset))) by (bit_vector)
        requires
            1 <= width,
            offset + width <= 8,
    ;
}

/// A value no larger than the mask of the field passes through the mask unchanged.
pub proof fn lemma_fits_mask(value: u8, width: u8)
    requires
        1 <= width <= 8,
        value <= low_mask(width),
    ensures
        value & low_mask(width) == value,
{
    assert(value <= (0xffu8 >> ((8 - width) as u8)) ==> value & (0xffu8 >> ((8 - width) as u8))
        == value) by (bit_vector)
        requires
            1 <= width <= 8,
    ;
}

/// The masks of the widths that occur.
pub proof fn lemma_low_mask_values()
    ensures
        low_mask(1) == 1,
        low_mask(2) == 3,
        low_mask(3) == 7,
        low_mask(5) == 31,
        low_mask(7) == 127,
        low_mask(8) == 255,
{
    assert(0xffu8 >> ((8 - 1u8) as u8) == 1 && 0xffu8 >> ((8 - 2u8) as u8) == 3 && 0xffu8 >> ((8
        - 3u8) as u8) == 7 && 0xffu8 >> ((8 - 5u8) as u8) == 31 && 0xffu8 >> ((8 - 7u8) as u8)
        == 127 && 0xffu8 >> ((8 - 8u8) as u8) == 255) by (bit_vector);
}

} // verus!
