//! Laws of the instruction set, proved of the model for every machine.
//!
//! The executable processor computes what the model says, so each law holds
//! of every processor as well. `step` includes the fetch: the program
//! counter of the machine a law speaks of points at the opcode.

use vstd::prelude::*;
use crate::cpu::{AddressingMode, CpuError};
use crate::machine::{stack_address, Machine, PROGRAM_ORIGIN, RESET_VECTOR};
use crate::status::{
    carry_in, flag_on, is_flag, lemma_carry_and_overflow_survive, lemma_flag_write_read,
    lemma_zero_negative, sign_bit, with_flag, with_zero_negative, CARRY, NEGATIVE, OVERFLOW, ZERO,
};
use crate::word::{complement, lemma_split_then_join, signed, word};

verus! {

/// A byte written is the byte read; every other cell reads as before.
pub proof fn law_read_after_write(m: Machine, addr: u16, data: u8, other: u16)
    requires
        m.wf(),
    ensures
        m.write(addr, data).wf(),
        m.write(addr, data).read(other) == (if other == addr {
            data
        } else {
            m.read(other)
        }),
        m.write(addr, data).update == (m.update || (0x0200 <= addr <= 0x05FF)),
        m.write(addr, data) == (Machine {
            mem: m.write(addr, data).mem,
            update: m.write(addr, data).update,
            ..m
        }),
{
}

/// A word written is the word read, at every address: at the last one the
/// high byte lives at address zero.
pub proof fn law_word_read_after_write(m: Machine, addr: u16, data: u16)
    requires
        m.wf(),
    ensures
        m.write16(addr, data).read16(addr) == data,
        m.write16(addr, data).read(addr) == data % 256,
        m.write16(addr, data).read(addr.wrapping_add(1)) == data / 256,
{
    lemma_split_then_join(data);
}

/// After a load and a reset the processor stands at its load origin, and
/// memory from there on holds the program, byte for byte, but for the two
/// bytes of the reset vector where the program reaches that far.
pub proof fn law_load_and_reset_enter_the_program(m: Machine, program: Seq<u8>, i: int)
    requires
        m.wf(),
        m.fits(program.len()),
        0 <= i < program.len(),
    ensures
        m.load(program).reset().pc == m.origin,
        m.load(program).reset().mem == m.load(program).mem,
        m.load(program).reset().origin == m.origin,
        m.origin + i != RESET_VECTOR && m.origin + i != RESET_VECTOR + 1 ==> m.load(program).read(
            (m.origin + i) as u16,
        ) == program[i],
{
    lemma_split_then_join(m.origin);
}

/// A processor built without a choice of origin loads at 0x0600: an image
/// of up to 0xFA00 bytes fits, and after a load and a reset the program
/// counter stands at 0x0600.
pub proof fn law_default_origin(program: Seq<u8>)
    requires
        program.len() <= 0xFA00,
    ensures
        Machine::power_on(PROGRAM_ORIGIN).fits(program.len()),
        Machine::power_on(PROGRAM_ORIGIN).load(program).reset().pc == 0x0600,
        Machine::power_on(PROGRAM_ORIGIN).load(program).read(0xFFFC) == 0x00,
        Machine::power_on(PROGRAM_ORIGIN).load(program).read(0xFFFD) == 0x06,
{
    lemma_split_then_join(PROGRAM_ORIGIN);
}

/// A step never changes how many cells memory has.
pub proof fn law_step_keeps_memory_size(m: Machine)
    requires
        m.wf(),
    ensures
        m.step().wf(),
{
}

/// A byte that is no opcode is fetched and nothing more: the step moves the
/// program counter past it, changes nothing else, and reports the byte.
pub proof fn law_undecodable_byte_is_only_fetched(m: Machine)
    requires
        !m.decodable(),
    ensures
        m.step() == (Machine { pc: m.pc.wrapping_add(1), ..m }),
        m.step_outcome() == Err::<bool, CpuError>(CpuError::DecodeError { code: m.opcode() }),
{
}

/// A step reports a halt, a continuation or a byte that it cannot decode,
/// and never an addressing error.
pub proof fn law_step_never_lacks_an_address(m: Machine)
    ensures
        m.step_outcome() != Err::<bool, CpuError>(CpuError::AddressingError),
{
}

/// BRK halts and does nothing else: the step moves the program counter past
/// the opcode and reports the halt.
pub proof fn law_break_halts(m: Machine)
    requires
        m.at_break(),
    ensures
        m.step() == (Machine { pc: m.pc.wrapping_add(1), ..m }),
        m.step_outcome() == Ok::<bool, CpuError>(true),
{
}

/// `LDA #v` leaves `v` in A, sets Zero exactly when `v` is zero and
/// Negative exactly when bit 7 of `v` is set, and moves on to the next
/// instruction. Nothing else changes.
pub proof fn law_lda_immediate(m: Machine)
    requires
        m.wf(),
        m.opcode() == 0xA9,
    ensures
        ({
            let v = m.read(m.pc.wrapping_add(1));
            let after = m.step();
            &&& after.a == v
            &&& flag_on(after.status, ZERO) == (v == 0)
            &&& flag_on(after.status, NEGATIVE) == sign_bit(v)
            &&& after == Machine {
                a: v,
                status: with_zero_negative(m.status, v),
                pc: m.pc.wrapping_add(2),
                ..m
            }
        }),
{
    let v = m.read(m.pc.wrapping_add(1));
    lemma_zero_negative(m.status, v, ZERO);
    lemma_zero_negative(m.status, v, NEGATIVE);
}

/// `LDX #v` does to X what `LDA #v` does to A.
pub proof fn law_ldx_immediate(m: Machine)
    requires
        m.wf(),
        m.opcode() == 0xA2,
    ensures
        ({
            let v = m.read(m.pc.wrapping_add(1));
            let after = m.step();
            &&& after.x == v
            &&& flag_on(after.status, ZERO) == (v == 0)
            &&& flag_on(after.status, NEGATIVE) == sign_bit(v)
            &&& after == Machine {
                x: v,
                status: with_zero_negative(m.status, v),
                pc: m.pc.wrapping_add(2),
                ..m
            }
        }),
{
    let v = m.read(m.pc.wrapping_add(1));
    lemma_zero_negative(m.status, v, ZERO);
    lemma_zero_negative(m.status, v, NEGATIVE);
}

/// `LDY #v` does to Y what `LDA #v` does to A.
pub proof fn law_ldy_immediate(m: Machine)
    requires
        m.wf(),
        m.opcode() == 0xA0,
    ensures
        ({
            let v = m.read(m.pc.wrapping_add(1));
            let after = m.step();
            &&& after.y == v
            &&& flag_on(after.status, ZERO) == (v == 0)
            &&& flag_on(after.status, NEGATIVE) == sign_bit(v)
            &&& after == Machine {
                y: v,
                status: with_zero_negative(m.status, v),
                pc: m.pc.wrapping_add(2),
                ..m
            }
        }),
{
    let v = m.read(m.pc.wrapping_add(1));
    lemma_zero_negative(m.status, v, ZERO);
    lemma_zero_negative(m.status, v, NEGATIVE);
}

/// `STA zp` followed by `LDA zp` leaves A as it was, whatever the page-zero
/// address and whatever A holds. The second instruction is the one that the
/// machine finds after the store.
pub proof fn law_store_load_round_trip(m: Machine)
    requires
        m.wf(),
        m.opcode() == 0x85,
        m.step().opcode() == 0xA5,
        m.step().read(m.step().pc.wrapping_add(1)) == m.read(m.pc.wrapping_add(1)),
    ensures
        m.step().read(m.read(m.pc.wrapping_add(1)) as u16) == m.a,
        m.step().step().a == m.a,
{
}

/// Whether the branch instruction `code` is taken under `status`.
pub open spec fn branch_taken(code: u8, status: u8) -> bool {
    match code {
        0x10 => !flag_on(status, NEGATIVE),
        0x30 => flag_on(status, NEGATIVE),
        0x50 => !flag_on(status, OVERFLOW),
        0x70 => flag_on(status, OVERFLOW),
        0x90 => !flag_on(status, CARRY),
        0xB0 => flag_on(status, CARRY),
        0xD0 => !flag_on(status, ZERO),
        _ => flag_on(status, ZERO),
    }
}

/// `code` is one of the eight branch instructions.
pub open spec fn is_branch(code: u8) -> bool {
    code == 0x10 || code == 0x30 || code == 0x50 || code == 0x70 || code == 0x90 || code == 0xB0
        || code == 0xD0 || code == 0xF0
}

/// A branch changes the program counter and nothing else. Not taken, it
/// falls through to the instruction after its two bytes. Taken, it lands on
/// that address moved by the signed offset; the one offset that would land
/// on the branch's own offset byte, -1, falls through instead.
pub proof fn law_branch_displacement(m: Machine)
    requires
        m.wf(),
        is_branch(m.opcode()),
    ensures
        ({
            let offset = m.read(m.pc.wrapping_add(1));
            let after = m.step();
            &&& after == Machine { pc: after.pc, ..m }
            &&& after.pc == (if branch_taken(m.opcode(), m.status) && offset != 0xFF {
                ((m.pc + 2 + signed(offset)) % 0x10000) as u16
            } else {
                m.pc.wrapping_add(2)
            })
        }),
{
}

/// `JSR` followed by `RTS` at its target comes back to the byte after the
/// three bytes of the `JSR`, with the stack pointer and the registers as
/// they were before the call.
pub proof fn law_call_return_round_trip(m: Machine)
    requires
        m.wf(),
        m.opcode() == 0x20,
        m.step().opcode() == 0x60,
    ensures
        ({
            let back = m.step().step();
            &&& back.pc == m.pc.wrapping_add(3)
            &&& back.sp == m.sp
            &&& back.a == m.a
            &&& back.x == m.x
            &&& back.y == m.y
            &&& back.status == m.status
        }),
{
    lemma_split_then_join(m.pc.wrapping_add(2));
}

/// An indirect `JMP` reads both bytes of its target from the page of its
/// pointer: with the pointer on the last byte of a page, the high byte comes
/// from the first byte of that page, not of the next.
pub proof fn law_indirect_jump_stays_in_page(m: Machine)
    requires
        m.wf(),
        m.opcode() == 0x6C,
    ensures
        ({
            let pointer = m.read16(m.pc.wrapping_add(1));
            let high_at = if pointer % 256 == 255 {
                (pointer - 255) as u16
            } else {
                (pointer + 1) as u16
            };
            let target = word(m.read(pointer), m.read(high_at));
            &&& m.step() == Machine { pc: m.step().pc, ..m }
            &&& m.step().pc == (if target == m.pc.wrapping_add(1) {
                m.pc.wrapping_add(3)
            } else {
                target
            })
        }),
{
}

/// The sum that the adder forms: A, the operand and the incoming carry.
pub open spec fn unsigned_sum(m: Machine, value: u8) -> int {
    m.a + value + carry_in(m.status)
}

/// The same sum with A and the operand read as signed bytes.
pub open spec fn signed_sum(m: Machine, value: u8) -> int {
    signed(m.a) + signed(value) + carry_in(m.status)
}

/// What the adder leaves in each flag: Carry tells whether the unsigned
/// sum passed 255, Overflow whether the signed sum left the range of a
/// signed byte, Zero and Negative follow the new A, which is the unsigned
/// sum modulo 256. No flag clobbers another.
pub proof fn law_adder(m: Machine, value: u8)
    ensures
        ({
            let after = m.add_to_a(value);
            &&& after.a == unsigned_sum(m, value) % 256
            &&& flag_on(after.status, CARRY) == (unsigned_sum(m, value) > 255)
            &&& flag_on(after.status, OVERFLOW) == !(-128 <= signed_sum(m, value) <= 127)
            &&& flag_on(after.status, ZERO) == (after.a == 0)
            &&& flag_on(after.status, NEGATIVE) == sign_bit(after.a)
        }),
{
    let after = m.add_to_a(value);
    let sum = unsigned_sum(m, value);
    let carried = with_flag(m.status, CARRY, sum > 0xFF);
    let overflow = !(-128 <= signed_sum(m, value) <= 127);
    let overflowed = with_flag(carried, OVERFLOW, overflow);
    lemma_flag_write_read(m.status, CARRY, sum > 0xFF, CARRY);
    lemma_flag_write_read(carried, OVERFLOW, overflow, CARRY);
    lemma_flag_write_read(carried, OVERFLOW, overflow, OVERFLOW);
    lemma_zero_negative(overflowed, after.a, CARRY);
    lemma_zero_negative(overflowed, after.a, OVERFLOW);
    lemma_zero_negative(overflowed, after.a, ZERO);
    lemma_zero_negative(overflowed, after.a, NEGATIVE);
}

/// What `SBC` computes, in numbers. The operand reaches the adder as its
/// one's complement, and so, with `borrow` one when Carry is clear and zero
/// when it is set, A becomes A minus the operand minus the borrow, modulo
/// 256; Carry tells that the unsigned difference did not go below zero,
/// Overflow that the signed difference left the range of a signed byte.
pub proof fn law_subtractor(m: Machine, value: u8)
    ensures
        ({
            let after = m.add_to_a(complement(value));
            let borrow = 1 - carry_in(m.status);
            &&& after.a == (m.a - value - borrow) % 256
            &&& flag_on(after.status, CARRY) == (m.a - value - borrow >= 0)
            &&& flag_on(after.status, OVERFLOW) == !(-128 <= signed(m.a) - signed(
                value,
            ) - borrow <= 127)
            &&& flag_on(after.status, ZERO) == (after.a == 0)
            &&& flag_on(after.status, NEGATIVE) == sign_bit(after.a)
        }),
{
    law_adder(m, complement(value));
}

/// What a compare leaves in each flag: Carry tells whether the register is
/// at least the operand, Zero whether the two are equal, and Negative is
/// bit 7 of the register minus the operand, modulo 256. So Zero implies
/// Carry, and equal values leave Negative clear. Every other flag and all
/// the rest of the machine stay.
pub proof fn law_compare(m: Machine, register: u8, mode: AddressingMode, other: u8)
    requires
        is_flag(other),
    ensures
        ({
            let value = m.operand(mode);
            let after = m.compare(register, mode);
            &&& flag_on(after.status, CARRY) == (register >= value)
            &&& flag_on(after.status, ZERO) == (register == value)
            &&& flag_on(after.status, NEGATIVE) == ((register - value) % 256 >= 0x80)
            &&& flag_on(after.status, ZERO) ==> flag_on(after.status, CARRY) && !flag_on(
                after.status,
                NEGATIVE,
            )
            &&& other != CARRY && other != ZERO && other != NEGATIVE ==> flag_on(
                after.status,
                other,
            ) == flag_on(m.status, other)
            &&& after == Machine { status: after.status, ..m }
        }),
{
    let value = m.operand(mode);
    let carried = with_flag(m.status, CARRY, register >= value);
    let zeroed = with_flag(carried, ZERO, register == value);
    let negative = sign_bit(register.wrapping_sub(value));
    lemma_flag_write_read(m.status, CARRY, register >= value, CARRY);
    lemma_flag_write_read(carried, ZERO, register == value, CARRY);
    lemma_flag_write_read(zeroed, NEGATIVE, negative, CARRY);
    lemma_flag_write_read(carried, ZERO, register == value, ZERO);
    lemma_flag_write_read(zeroed, NEGATIVE, negative, ZERO);
    lemma_flag_write_read(zeroed, NEGATIVE, negative, NEGATIVE);
    lemma_flag_write_read(m.status, CARRY, register >= value, other);
    lemma_flag_write_read(carried, ZERO, register == value, other);
    lemma_flag_write_read(zeroed, NEGATIVE, negative, other);
}

/// The instructions that may change Carry or Overflow: `ADC`, `SBC`, the
/// shifts and rotates, the compares, `BIT`, `CLC`, `SEC` and `CLV`, and
/// `PLP` and `RTI`, which replace the whole status.
pub open spec fn may_change_carry_or_overflow(code: u8) -> bool {
    match code {
        0x69 | 0x65 | 0x75 | 0x6D | 0x7D | 0x79 | 0x61 | 0x71 => true,
        0xE9 | 0xE5 | 0xF5 | 0xED | 0xFD | 0xF9 | 0xE1 | 0xF1 => true,
        0x0A | 0x06 | 0x16 | 0x0E | 0x1E => true,
        0x4A | 0x46 | 0x56 | 0x4E | 0x5E => true,
        0x2A | 0x26 | 0x36 | 0x2E | 0x3E => true,
        0x6A | 0x66 | 0x76 | 0x6E | 0x7E => true,
        0xC9 | 0xC5 | 0xD5 | 0xCD | 0xDD | 0xD9 | 0xC1 | 0xD1 => true,
        0xE0 | 0xE4 | 0xEC | 0xC0 | 0xC4 | 0xCC => true,
        0x24 | 0x2C => true,
        0x18 | 0x38 | 0xB8 => true,
        0x28 | 0x40 => true,
        _ => false,
    }
}

/// Carry and Overflow move only under the instructions defined to move
/// them: every other instruction leaves both as they were.
pub proof fn law_carry_and_overflow_are_kept(m: Machine)
    requires
        m.wf(),
        !may_change_carry_or_overflow(m.opcode()),
    ensures
        flag_on(m.step().status, CARRY) == flag_on(m.status, CARRY),
        flag_on(m.step().status, OVERFLOW) == flag_on(m.status, OVERFLOW),
{
    lemma_carry_and_overflow_survive();
}

/// The stack never leaves its page: the slot of every stack pointer lies
/// between 0x0100 and 0x01FF, and a push changes that one cell of memory
/// and no other.
pub proof fn law_stack_stays_in_page(m: Machine, data: u8)
    requires
        m.wf(),
    ensures
        0x0100 <= stack_address(m.sp) <= 0x01FF,
        m.push(data).mem == m.mem.update(stack_address(m.sp.wrapping_sub(1)) as int, data),
        m.push(data).pull() == (Machine { mem: m.push(data).mem, ..m }),
        m.push(data).top() == data,
{
}

/// A run of one step is a step.
pub proof fn law_run_of_one_is_a_step(m: Machine)
    ensures
        m.run(1) == m.step(),
        m.run_outcome(1) == m.step_outcome(),
{
    // The run of the one step left over ends at once, on an empty budget.
    assert(m.step().run(0) == m.step());
    assert(m.step().run_outcome(0) == Ok::<bool, CpuError>(false));
}

/// A run can be taken in slices: while the budget runs out before the
/// program stops, running on with a second budget is one run with the sum
/// of the two.
pub proof fn law_run_in_slices(m: Machine, first: nat, second: nat)
    requires
        !m.stops_within(first),
    ensures
        m.run(first + second) == m.run(first).run(second),
        m.run_outcome(first + second) == m.run(first).run_outcome(second),
    decreases first,
{
    if first > 0 {
        law_run_in_slices(m.step(), (first - 1) as nat, second);
    }
}

/// A run that stopped on its own, at a BRK or at a byte that is no opcode,
/// ends the same under every larger budget.
pub proof fn law_larger_budget_same_run(m: Machine, budget: nat, larger: nat)
    requires
        budget <= larger,
        m.stops_within(budget),
    ensures
        m.run(larger) == m.run(budget),
        m.run_outcome(larger) == m.run_outcome(budget),
    decreases budget,
{
    if budget > 0 && m.decodable() && !m.at_break() {
        law_larger_budget_same_run(m.step(), (budget - 1) as nat, (larger - 1) as nat);
    }
}

/// A run reports a halt only after a BRK: the instruction before the final
/// program counter is the opcode 0x00 that ended it.
pub proof fn law_halt_is_break(m: Machine, budget: nat)
    requires
        m.wf(),
        m.halts_within(budget),
    ensures
        m.run(budget).read(m.run(budget).pc.wrapping_sub(1)) == 0x00,
    decreases budget,
{
    if budget > 0 && m.decodable() && !m.at_break() {
        law_step_keeps_memory_size(m);
        law_halt_is_break(m.step(), (budget - 1) as nat);
    }
}

/// Reset is idempotent: a second reset changes nothing.
pub proof fn law_reset_idempotent(m: Machine)
    ensures
        m.reset().reset() == m.reset(),
{
}

} // verus!
