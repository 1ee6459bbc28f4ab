//! Single-bit access to fixed-width unsigned integers.
//!
//! A flag set is an unsigned integer in which every bit position carries its
//! own boolean meaning. The functions here read and write one position and
//! leave all the others alone; the proof functions state exactly that.
use vstd::prelude::*;

verus! {

/// Whether bit `index` of an 8-bit flag set is set.
pub open spec fn bit_u8(raw: u8, index: u8) -> bool {
    (raw >> index) & 1u8 == 1u8
}

/// The 8-bit flag set `raw` with bit `index` replaced by `value`.
pub open spec fn with_bit_u8(raw: u8, index: u8, value: bool) -> u8 {
    if value {
        raw | (1u8 << index)
    } else {
        raw & !(1u8 << index)
    }
}

/// Whether bit `index` of a 16-bit flag set is set.
pub open spec fn bit_u16(raw: u16, index: u16) -> bool {
    (raw >> index) & 1u16 == 1u16
}

/// The 16-bit flag set `raw` with bit `index` replaced by `value`.
pub open spec fn with_bit_u16(raw: u16, index: u16, value: bool) -> u16 {
    if value {
        raw | (1u16 << index)
    } else {
        raw & !(1u16 << index)
    }
}

/// What a write of `value` to bit `index` makes of `before`: the bit holds
/// the value, and every other bit is as it was.
pub open spec fn writes_bit_u8(before: u8, index: u8, value: bool, after: u8) -> bool {
    &&& after == with_bit_u8(before, index, value)
    &&& bit_u8(after, index) == value
    &&& forall|other: u8|
        other < 8 && other != index ==> bit_u8(after, other) == bit_u8(before, other)
}

/// What a write of `value` to bit `index` makes of `before`: the bit holds
/// the value, and every other bit is as it was.
pub open spec fn writes_bit_u16(before: u16, index: u16, value: bool, after: u16) -> bool {
    &&& after == with_bit_u16(before, index, value)
    &&& bit_u16(after, index) == value
    &&& forall|other: u16|
        other < 16 && other != index ==> bit_u16(after, other) == bit_u16(before, other)
}

/// Reads bit `index` of an 8-bit flag set.
pub fn get_bit_u8(raw: u8, index: u8) -> (set: bool)
    requires
        index < 8,
    ensures
        set == bit_u8(raw, index),
{
    (raw >> index) & 1u8 == 1u8
}

/// Returns `raw` with bit `index` replaced by `value`.
pub fn set_bit_u8(raw: u8, index: u8, value: bool) -> (updated: u8)
    requires
        index < 8,
    ensures
        writes_bit_u8(raw, index, value, updated),
{
    proof {
        lemma_with_bit_u8_same(raw, index, value);
        assert forall|other: u8| other < 8 && other != index implies bit_u8(
            with_bit_u8(raw, index, value),
            other,
        ) == bit_u8(raw, other) by {
            lemma_with_bit_u8_other(raw, index, value, other);
        }
    }
    if value {
        raw | (1u8 << index)
    } else {
        raw & !(1u8 << index)
    }
}

/// Reads bit `index` of a 16-bit flag set.
pub fn get_bit_u16(raw: u16, index: u16) -> (set: bool)
    requires
        index < 16,
    ensures
        set == bit_u16(raw, index),
{
    (raw >> index) & 1u16 == 1u16
}

/// Returns `raw` with bit `index` replaced by `value`.
pub fn set_bit_u16(raw: u16, index: u16, value: bool) -> (updated: u16)
    requires
        index < 16,
    ensures
        writes_bit_u16(raw, index, value, updated),
{
    proof {
        lemma_with_bit_u16_same(raw, index, value);
        assert forall|other: u16| other < 16 && other != index implies bit_u16(
            with_bit_u16(raw, index, value),
            other,
        ) == bit_u16(raw, other) by {
            lemma_with_bit_u16_other(raw, index, value, other);
        }
    }
    if value {
        raw | (1u16 << index)
    } else {
        raw & !(1u16 << index)
    }
}

/// A bit that has just been written reads back as the value written.
pub proof fn lemma_with_bit_u8_same(raw: u8, index: u8, value: bool)
    requires
        index < 8,
    ensures
        bit_u8(with_bit_u8(raw, index, value), index) == value,
{
    assert(((raw | (1u8 << index)) >> index) & 1u8 == 1u8) by (bit_vector)
        requires
            index < 8,
    ;
    assert(((raw & !(1u8 << index)) >> index) & 1u8 != 1u8) by (bit_vector)
        requires
            index < 8,
    ;
}

/// Writing one bit leaves every other bit as it was.
pub proof fn lemma_with_bit_u8_other(raw: u8, index: u8, value: bool, other: u8)
    requires
        index < 8,
        other < 8,
        other != index,
    ensures
        bit_u8(with_bit_u8(raw, index, value), other) == bit_u8(raw, other),
{
    assert(((raw | (1u8 << index)) >> other) & 1u8 == (raw >> other) & 1u8) by (bit_vector)
        requires
            index < 8,
            other < 8,
            other != index,
    ;
    assert(((raw & !(1u8 << index)) >> other) & 1u8 == (raw >> other) & 1u8) by (bit_vector)
        requires
            index < 8,
            other < 8,
            other != index,
    ;
}

/// A bit that has just been written reads back as the value written.
pub proof fn lemma_with_bit_u16_same(raw: u16, index: u16, value: bool)
    requires
        index < 16,
    ensures
        bit_u16(with_bit_u16(raw, index, value), index) == value,
{
    assert(((raw | (1u16 << index)) >> index) & 1u16 == 1u16) by (bit_vector)
        requires
            index < 16,
    ;
    assert(((raw & !(1u16 << index)) >> index) & 1u16 != 1u16) by (bit_vector)
        requires
            index < 16,
    ;
}

/// Writing one bit leaves every other bit as it was.
pub proof fn lemma_with_bit_u16_other(raw: u16, index: u16, value: bool, other: u16)
    requires
        index < 16,
        other < 16,
        other != index,
    ensures
        bit_u16(with_bit_u16(raw, index, value), other) == bit_u16(raw, other),
{
    assert(((raw | (1u16 << index)) >> other) & 1u16 == (raw >> other) & 1u16) by (bit_vector)
        requires
            index < 16,
            other < 16,
            other != index,
    ;
    assert(((raw & !(1u16 << index)) >> other) & 1u16 == (raw >> other) & 1u16) by (bit_vector)
        requires
            index < 16,
            other < 16,
            other != index,
    ;
}

/// A bit of a bitwise OR is set exactly when it is set in either operand.
pub proof fn lemma_bit_of_or_u16(a: u16, b: u16, index: u16)
    requires
        index < 16,
    ensures
        bit_u16(a | b, index) == (bit_u16(a, index) || bit_u16(b, index)),
{
    assert((((a | b) >> index) & 1u16 == 1u16) == (((a >> index) & 1u16 == 1u16) || ((b >> index)
        & 1u16 == 1u16))) by (bit_vector)
        requires
            index < 16,
    ;
}

/// A bit of a bitwise AND is set exactly when it is set in both operands.
pub proof fn lemma_bit_of_and_u16(a: u16, b: u16, index: u16)
    requires
        index < 16,
    ensures
        bit_u16(a & b, index) == (bit_u16(a, index) && bit_u16(b, index)),
{
    assert((((a & b) >> index) & 1u16 == 1u16) == (((a >> index) & 1u16 == 1u16) && ((b >> index)
        & 1u16 == 1u16))) by (bit_vector)
        requires
            index < 16,
    ;
}

} // verus!
