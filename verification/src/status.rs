//! The processor status register.
//!
//! The register is one byte, laid out `NV1BDIZC` from bit 7 down to bit 0. A
//! flag is named by its mask, a byte with exactly that bit set. Everything
//! here is a pure function of status bytes; the processor keeps its status as
//! a plain `u8` and routes every flag change through these definitions.

use vstd::prelude::*;

verus! {

/// Carry out of bit 7 (additions, shifts) or "no borrow" (compares).
pub const CARRY: u8 = 0b0000_0001;

/// The last result was zero.
pub const ZERO: u8 = 0b0000_0010;

/// Interrupts are masked.
pub const INTERRUPT_DISABLE: u8 = 0b0000_0100;

/// Decimal mode. Stored, never acted upon.
pub const DECIMAL_MODE: u8 = 0b0000_1000;

/// Break marker, only meaningful in a status byte that sits on the stack.
pub const BREAK: u8 = 0b0001_0000;

/// The bit without a name; reads as set in a status byte restored by `RTI`.
pub const UNUSED: u8 = 0b0010_0000;

/// Signed overflow of the last addition or subtraction.
pub const OVERFLOW: u8 = 0b0100_0000;

/// Bit 7 of the last result.
pub const NEGATIVE: u8 = 0b1000_0000;

/// `flag` is the mask of one of the eight status bits.
pub open spec fn is_flag(flag: u8) -> bool {
    flag == CARRY || flag == ZERO || flag == INTERRUPT_DISABLE || flag == DECIMAL_MODE || flag
        == BREAK || flag == UNUSED || flag == OVERFLOW || flag == NEGATIVE
}

/// Whether `flag` is set in `status`.
pub open spec fn flag_on(status: u8, flag: u8) -> bool {
    status & flag != 0
}

/// `status` with `flag` set when `on` holds and cleared otherwise.
pub open spec fn with_flag(status: u8, flag: u8, on: bool) -> u8 {
    if on {
        status | flag
    } else {
        status & !flag
    }
}

/// Bit 7 of a byte, the sign of its two's-complement reading: set in the
/// upper half of the byte range.
pub open spec fn sign_bit(value: u8) -> bool {
    value >= 0x80
}

/// `status` with Zero and Negative recomputed from an 8-bit result: Zero is
/// set exactly when the result is zero, Negative exactly when its bit 7 is
/// set. No other flag moves.
pub open spec fn with_zero_negative(status: u8, result: u8) -> u8 {
    with_flag(with_flag(status, ZERO, result == 0), NEGATIVE, sign_bit(result))
}

/// The carry flag of `status` as the number it contributes to an addition.
pub open spec fn carry_in(status: u8) -> int {
    if flag_on(status, CARRY) {
        1
    } else {
        0
    }
}

/// Reads one flag.
pub fn test_flag(status: u8, flag: u8) -> (on: bool)
    ensures
        on == flag_on(status, flag),
{
    status & flag != 0
}

/// Sets or clears one flag, by `on`.
pub fn assign_flag(status: u8, flag: u8, on: bool) -> (updated: u8)
    ensures
        updated == with_flag(status, flag, on),
{
    if on {
        status | flag
    } else {
        status & !flag
    }
}

/// Recomputes Zero and Negative from `result`.
pub fn assign_zero_negative(status: u8, result: u8) -> (updated: u8)
    ensures
        updated == with_zero_negative(status, result),
{
    let zeroed = assign_flag(status, ZERO, result == 0);
    proof {
        lemma_sign_bit(result);
    }
    assign_flag(zeroed, NEGATIVE, result & 0x80 != 0)
}

/// Writing a flag and reading it back gives what was written; every other
/// flag reads as before.
pub proof fn lemma_flag_write_read(status: u8, flag: u8, on: bool, other: u8)
    by (bit_vector)
    requires
        is_flag(flag),
        is_flag(other),
    ensures
        flag_on(with_flag(status, flag, on), other) == (if other == flag {
            on
        } else {
            flag_on(status, other)
        }),
{
}

/// Two status bytes that agree on all eight flags are the same byte.
pub proof fn law_flags_determine_status(s: u8, t: u8)
    by (bit_vector)
    requires
        flag_on(s, CARRY) == flag_on(t, CARRY),
        flag_on(s, ZERO) == flag_on(t, ZERO),
        flag_on(s, INTERRUPT_DISABLE) == flag_on(t, INTERRUPT_DISABLE),
        flag_on(s, DECIMAL_MODE) == flag_on(t, DECIMAL_MODE),
        flag_on(s, BREAK) == flag_on(t, BREAK),
        flag_on(s, UNUSED) == flag_on(t, UNUSED),
        flag_on(s, OVERFLOW) == flag_on(t, OVERFLOW),
        flag_on(s, NEGATIVE) == flag_on(t, NEGATIVE),
    ensures
        s == t,
{
}

/// The sign bit is bit 7, tested by its mask.
pub proof fn lemma_sign_bit(value: u8)
    by (bit_vector)
    ensures
        sign_bit(value) == (value & 0x80 != 0),
{
}

/// Carry and Overflow survive every change to another flag, and with it the
/// recomputation of Zero and Negative.
pub proof fn lemma_carry_and_overflow_survive()
    by (bit_vector)
    ensures
        forall|status: u8, result: u8|
            #![trigger with_zero_negative(status, result)]
            flag_on(with_zero_negative(status, result), CARRY) == flag_on(status, CARRY) && flag_on(
                with_zero_negative(status, result),
                OVERFLOW,
            ) == flag_on(status, OVERFLOW),
        forall|status: u8, flag: u8, on: bool|
            #![trigger with_flag(status, flag, on)]
            is_flag(flag) && flag != CARRY ==> flag_on(with_flag(status, flag, on), CARRY)
                == flag_on(status, CARRY),
        forall|status: u8, flag: u8, on: bool|
            #![trigger with_flag(status, flag, on)]
            is_flag(flag) && flag != OVERFLOW ==> flag_on(with_flag(status, flag, on), OVERFLOW)
                == flag_on(status, OVERFLOW),
{
}

/// What recomputing Zero and Negative does, flag by flag: Zero and Negative
/// follow the result, every other flag reads as before.
pub proof fn lemma_zero_negative(status: u8, result: u8, other: u8)
    requires
        is_flag(other),
    ensures
        flag_on(with_zero_negative(status, result), other) == (if other == ZERO {
            result == 0
        } else if other == NEGATIVE {
            sign_bit(result)
        } else {
            flag_on(status, other)
        }),
{
    let zeroed = with_flag(status, ZERO, result == 0);
    lemma_flag_write_read(status, ZERO, result == 0, other);
    lemma_flag_write_read(zeroed, NEGATIVE, sign_bit(result), other);
}

} // verus!
