//! Bytes, 16-bit words and the arithmetic that joins them.
//!
//! Addresses are 16 bits wide and wrap; multi-byte values are little-endian.
//! The definitions are arithmetic, so that proofs about program counters and
//! pointers stay within linear reasoning.

use vstd::prelude::*;

verus! {

/// The 16-bit word with low byte `lo` and high byte `hi`.
pub open spec fn word(lo: u8, hi: u8) -> u16 {
    (lo + 256 * hi) as u16
}

/// The low byte of a word.
pub open spec fn low_byte(w: u16) -> u8 {
    (w % 256) as u8
}

/// The high byte of a word.
pub open spec fn high_byte(w: u16) -> u8 {
    (w / 256) as u8
}

/// A byte read as a signed, two's-complement number: -128 to 127.
pub open spec fn signed(value: u8) -> int {
    if value < 0x80 {
        value as int
    } else {
        value - 0x100
    }
}

/// `base` moved by the signed displacement that `offset` encodes, within 16
/// bits.
pub open spec fn displaced(base: u16, offset: u8) -> u16 {
    ((base + signed(offset)) % 0x10000) as u16
}

/// The one's complement of a byte: `-value - 1` in 8-bit arithmetic.
pub open spec fn complement(value: u8) -> u8 {
    (255 - value) as u8
}

/// Joins two bytes into a word, low byte first.
pub fn make_word(lo: u8, hi: u8) -> (w: u16)
    ensures
        w == word(lo, hi),
{
    (hi as u16) * 256 + (lo as u16)
}

/// The low byte of `w`.
pub fn low(w: u16) -> (b: u8)
    ensures
        b == low_byte(w),
{
    (w % 256) as u8
}

/// The high byte of `w`.
pub fn high(w: u16) -> (b: u8)
    ensures
        b == high_byte(w),
{
    (w / 256) as u8
}

/// Moves `base` by the signed displacement that `offset` encodes, wrapping
/// within 16 bits.
pub fn displace(base: u16, offset: u8) -> (moved: u16)
    ensures
        moved == displaced(base, offset),
{
    if offset < 0x80 {
        base.wrapping_add(offset as u16)
    } else {
        base.wrapping_sub(0x100 - (offset as u16))
    }
}

/// The one's complement of `value`.
pub fn ones_complement(value: u8) -> (c: u8)
    ensures
        c == complement(value),
{
    255 - value
}

/// Splitting a word and joining its bytes gives the word back.
pub proof fn lemma_split_then_join(w: u16)
    ensures
        word(low_byte(w), high_byte(w)) == w,
{
}

/// Joining two bytes and splitting the word gives the bytes back.
pub proof fn law_join_then_split(lo: u8, hi: u8)
    ensures
        low_byte(word(lo, hi)) == lo,
        high_byte(word(lo, hi)) == hi,
{
}

/// The arithmetic reading of a word agrees with the shift-and-mask one.
pub proof fn law_word_is_shift_and_mask(w: u16, lo: u8, hi: u8)
    by (bit_vector)
    ensures
        word(lo, hi) == ((hi as u16) << 8) | (lo as u16),
        low_byte(w) == (w & 0xff) as u8,
        high_byte(w) == (w >> 8) as u8,
{
}

/// The overflow test of the adder, `(value ^ result) & (result ^ a) & 0x80`,
/// fires exactly when the sum of `a`, `value` and `carry`, the first two
/// read as signed bytes, does not fit a signed byte.
pub proof fn lemma_overflow_test(a: u8, value: u8, carry: u8, result: u8)
    requires
        carry <= 1,
        result == (a + value + carry) % 256,
    ensures
        ((value ^ result) & (result ^ a) & 0x80 != 0) == !(-128 <= signed(a) + signed(value)
            + carry <= 127),
{
    assert(((value ^ result) & (result ^ a) & 0x80 != 0) == ((a < 0x80 && value < 0x80 && result
        >= 0x80) || (a >= 0x80 && value >= 0x80 && result < 0x80))) by (bit_vector);
}

/// The shifts and rotates of the processor compute what their arithmetic
/// says, with `carry` the old carry as 0 or 1: a left shift doubles modulo
/// 256 and a right shift halves; a rotate adds the old carry at the vacated
/// end; the bit that leaves is bit 7 going left and bit 0 going right.
pub proof fn lemma_shifts(value: u8, carry: u8)
    requires
        carry <= 1,
    ensures
        value << 1 == (2 * value) % 256,
        value >> 1 == value / 2,
        (value << 1) | carry == (2 * value + carry) % 256,
        (value >> 1) | (if carry == 1 {
            0x80u8
        } else {
            0x00u8
        }) == value / 2 + 128 * carry,
        (value & 0x80 != 0) == (value >= 0x80),
        (value & 0x01 != 0) == (value % 2 == 1),
{
    assert((value << 1) as int == (2 * value) % 256) by (bit_vector);
    assert(value >> 1 == value / 2) by (bit_vector);
    assert(((value << 1) | carry) as int == (2 * value + carry) % 256) by (bit_vector)
        requires
            carry <= 1,
    ;
    assert(((value >> 1) | (carry << 7)) as int == value / 2 + 128 * carry && carry << 7 == (
    if carry == 1 {
        0x80u8
    } else {
        0x00u8
    })) by (bit_vector)
        requires
            carry <= 1,
    ;
    assert((value & 0x80 != 0) == (value >= 0x80)) by (bit_vector);
    assert((value & 0x01 != 0) == (value % 2 == 1)) by (bit_vector);
}

/// The one's complement is the bitwise negation, and it flips the sign bit.
pub proof fn law_complement_is_negation(value: u8)
    by (bit_vector)
    ensures
        complement(value) == !value,
        (complement(value) & 0x80 != 0) == (value < 0x80),
{
}

} // verus!
