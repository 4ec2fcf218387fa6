//! Bit fields of a byte.

use bit_field::BitField;
use vstd::prelude::*;

verus! {

/// The byte with ones at the positions `start`, ..., `end - 1` and zeros elsewhere.
pub open spec fn field_mask(start: usize, end: usize) -> u8 {
    if start < end <= 8 {
        ((0xFFu8 << (8 - end)) >> (8 - end)) >> start << start
    } else {
        0u8
    }
}

/// The bits `start`, ..., `end - 1` of `byte`, moved down to position 0.
pub open spec fn field(byte: u8, start: usize, end: usize) -> u8 {
    if start < end <= 8 {
        ((byte << (8 - end)) >> (8 - end)) >> start
    } else {
        0u8
    }
}

/// `byte` with the bits `start`, ..., `end - 1` replaced by the low bits of `value`.
pub open spec fn with_field(byte: u8, start: usize, end: usize, value: u8) -> u8 {
    (byte & !field_mask(start, end)) | (value << start)
}

/// Whether `value` has no bit set at or above position `end - start`.
pub open spec fn fits_field(start: usize, end: usize, value: u8) -> bool {
    if start < end <= 8 {
        (value << (8 - (end - start))) >> (8 - (end - start)) == value
    } else {
        value == 0
    }
}

/// `byte` with the bit at position `bit` set or cleared.
pub open spec fn with_bit(byte: u8, bit: usize, value: bool) -> u8 {
    if value {
        byte | (1u8 << bit)
    } else {
        byte & !(1u8 << bit)
    }
}

/// Whether the bit at position `bit` of `byte` is set.
pub open spec fn bit_is_set(byte: u8, bit: usize) -> bool {
    byte & (1u8 << bit) != 0
}

/// `BitField::get_bit` of the crate `bit_field`, on a byte: whether the bit at position `bit`,
/// counted from the least significant, is set. The position must lie within the byte.
#[verifier::external_body]
pub(crate) fn get_bit(byte: u8, bit: usize) -> (set: bool)
    requires
        bit < 8,
    ensures
        set == bit_is_set(byte, bit),
{
    byte.get_bit(bit)
}

/// `BitField::get_bits` of the crate `bit_field`, on a byte and the range `start..end`: the
/// bits of that range, moved down to position 0. The range must start within the byte and end
/// within it or just behind it.
#[verifier::external_body]
pub(crate) fn get_bits(byte: u8, start: usize, end: usize) -> (bits: u8)
    requires
        start < 8,
        start <= end <= 8,
    ensures
        bits == field(byte, start, end),
{
    byte.get_bits(start..end)
}

/// `BitField::set_bit` of the crate `bit_field`, on a byte: the byte with the bit at position
/// `bit` set where `value` holds and cleared where it does not, and every other bit as it was.
#[verifier::external_body]
pub(crate) fn set_bit(byte: u8, bit: usize, value: bool) -> (updated: u8)
    requires
        bit < 8,
    ensures
        updated == with_bit(byte, bit, value),
{
    let mut updated = byte;
    updated.set_bit(bit, value);
    updated
}

/// `BitField::set_bits` of the crate `bit_field`, on a byte and the range `start..end`: the
/// byte with the bits of that range replaced by `value`, and every other bit as it was. The
/// value must fit into the range.
#[verifier::external_body]
pub(crate) fn set_bits(byte: u8, start: usize, end: usize, value: u8) -> (updated: u8)
    requires
        start < 8,
        start <= end <= 8,
        fits_field(start, end, value),
    ensures
        updated == with_field(byte, start, end, value),
{
    let mut updated = byte;
    updated.set_bits(start..end, value);
    updated
}

} // verus!
