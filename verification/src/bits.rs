//! Bit operations on single register bytes.
//!
//! A field inside a byte is addressed by `bit_start` (the field's most
//! significant bit, 0 = least significant bit of the byte) and `length`.
//! The field occupies bits `bit_start - length + 1 ..= bit_start`; when
//! `bit_start < length - 1` the aligning shift saturates at 0 instead of
//! underflowing, a deliberate edge-case policy kept for compatibility.

use vstd::prelude::*;

verus! {

/// The right-shift that aligns a field of `length` bits whose most
/// significant bit is `bit_start`; saturates at 0 rather than underflowing.
pub open spec fn spec_mask_shift(bit_start: u8, length: u8) -> u8 {
    if bit_start < length {
        0
    } else {
        (bit_start - length + 1) as u8
    }
}

/// Mask with the low `length` bits set (all eight once `length` reaches 8).
pub open spec fn spec_low_mask(length: u8) -> u8 {
    !(0xffu8 << length)
}

/// Mask of the field addressed by `(bit_start, length)` within a byte.
pub open spec fn spec_field_mask(bit_start: u8, length: u8) -> u8 {
    spec_low_mask(length) << spec_mask_shift(bit_start, length)
}

/// Bit `n` of `byte`, as 0 or 1.
pub open spec fn spec_get_bit(byte: u8, n: u8) -> u8 {
    (byte >> n) & 1
}

/// The field addressed by `(bit_start, length)`, isolated and right-aligned.
pub open spec fn spec_get_bits(byte: u8, bit_start: u8, length: u8) -> u8 {
    (byte & spec_field_mask(bit_start, length)) >> spec_mask_shift(bit_start, length)
}

/// `byte` with bit `n` set to 1 (`enable`) or 0 (`!enable`).
pub open spec fn spec_set_bit(byte: u8, n: u8, enable: bool) -> u8 {
    if enable {
        byte | (1u8 << n)
    } else {
        byte & !(1u8 << n)
    }
}

/// `byte` with the field addressed by `(bit_start, length)` replaced by the
/// low bits of `data`; bits outside the field are preserved exactly.
pub open spec fn spec_set_bits(byte: u8, bit_start: u8, length: u8, data: u8) -> u8 {
    (byte & !spec_field_mask(bit_start, length)) | ((data << spec_mask_shift(
        bit_start,
        length,
    )) & spec_field_mask(bit_start, length))
}

/// The executable mask computation, done in `u16` to stay defined at
/// `length == 8`, agrees with the spec-level low mask.
proof fn lemma_low_mask(length: u8)
    by (bit_vector)
    requires
        length <= 8,
    ensures
        1u16 << length >= 1,
        ((1u16 << length) - 1) as u8 == spec_low_mask(length),
{
}

/// get bit n of byte
pub fn get_bit(byte: u8, n: u8) -> (r: u8)
    requires
        n < 8,
    ensures
        r == spec_get_bit(byte, n),
        r <= 1,
{
    proof {
        assert((byte >> n) & 1 <= 1) by (bit_vector);
    }
    (byte >> n) & 1
}

/// get bits bit_start-length+1 ..= bit_start from byte, right-aligned
pub fn get_bits(byte: u8, bit_start: u8, length: u8) -> (r: u8)
    requires
        bit_start < 8,
        1 <= length <= 8,
    ensures
        r == spec_get_bits(byte, bit_start, length),
{
    let mask_shift: u8 = if bit_start < length {
        0
    } else {
        bit_start - length + 1
    };
    proof {
        lemma_low_mask(length);
    }
    let mask: u8 = (((1u16 << length) - 1) as u8) << mask_shift;
    (byte & mask) >> mask_shift
}

/// set bit n in byte
pub fn set_bit(byte: &mut u8, n: u8, enable: bool)
    requires
        n < 8,
    ensures
        *final(byte) == spec_set_bit(*old(byte), n, enable),
{
    if enable {
        *byte |= 1u8 << n;
    } else {
        *byte &= !(1u8 << n);
    }
}

/// Fill bits bit_start-length+1 ..= bit_start in byte with data
pub fn set_bits(byte: &mut u8, bit_start: u8, length: u8, data: u8)
    requires
        bit_start < 8,
        1 <= length <= 8,
    ensures
        *final(byte) == spec_set_bits(*old(byte), bit_start, length, data),
{
    let mask_shift: u8 = if bit_start < length {
        0
    } else {
        bit_start - length + 1
    };
    proof {
        lemma_low_mask(length);
    }
    let mask: u8 = (((1u16 << length) - 1) as u8) << mask_shift;
    let mut shifted: u8 = data << mask_shift;
    shifted &= mask;
    *byte &= !mask;
    *byte |= shifted;
}

/// Law: reading a field back right after writing it returns the written
/// value reduced modulo 2^length, for every byte and every valid field.
pub proof fn lemma_set_get_bits(byte: u8, bit_start: u8, length: u8, data: u8)
    by (bit_vector)
    requires
        bit_start < 8,
        1 <= length <= 8,
    ensures
        spec_get_bits(spec_set_bits(byte, bit_start, length, data), bit_start, length) == data
            & spec_low_mask(length),
        length < 8 ==> data & spec_low_mask(length) == data % (1u8 << length),
        length == 8 ==> data & spec_low_mask(length) == data,
{
}

/// Law: setting bit n to true makes it read as 1, setting it to false makes
/// it read as 0, and every other bit of the byte is left unchanged.
pub proof fn lemma_set_get_bit(byte: u8, n: u8, m: u8, enable: bool)
    by (bit_vector)
    requires
        n < 8,
        m < 8,
    ensures
        spec_get_bit(spec_set_bit(byte, n, true), n) == 1,
        spec_get_bit(spec_set_bit(byte, n, false), n) == 0,
        m != n ==> spec_get_bit(spec_set_bit(byte, n, enable), m) == spec_get_bit(byte, m),
{
}

/// Law: a bit outside the field mask is preserved exactly by `set_bits`.
pub proof fn lemma_set_bits_preserves_rest(byte: u8, bit_start: u8, length: u8, data: u8, m: u8)
    by (bit_vector)
    requires
        bit_start < 8,
        1 <= length <= 8,
        m < 8,
        spec_get_bit(spec_field_mask(bit_start, length), m) == 0,
    ensures
        spec_get_bit(spec_set_bits(byte, bit_start, length, data), m) == spec_get_bit(byte, m),
{
}

} // verus!
