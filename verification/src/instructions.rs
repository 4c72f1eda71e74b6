//! The instructions, one method of the processor each.
//!
//! Every method is specified by the function of the same instruction on the
//! model. The program counter points just past the opcode when a method is
//! entered; only branches, jumps, calls and returns move it.

use vstd::prelude::*;
use crate::cpu::AddressingMode;
use crate::cpu::CPU;
use crate::status::{carry_in, lemma_sign_bit, BREAK, CARRY, NEGATIVE, OVERFLOW, UNUSED, ZERO};
use crate::word::{
    displace, high, lemma_overflow_test, lemma_shifts, low, make_word, ones_complement,
};

verus! {

impl CPU {
    /// STA, STX, STY: stores `reg` at the operand address.
    pub fn write_reg(&mut self, mode: &AddressingMode, reg: u8)
        requires
            *mode != AddressingMode::NoneAddressing,
        ensures
            final(self)@ == old(self)@.store(*mode, reg),
    {
        let addr = self.operand_address(mode);
        self.mem_write(addr, reg);
    }

    /// LDA.
    pub fn lda(&mut self, mode: &AddressingMode)
        requires
            *mode != AddressingMode::NoneAddressing,
        ensures
            final(self)@ == old(self)@.lda(*mode),
    {
        let value = self.operand(mode);
        self.register_a = value;
        self.update_zero_and_negative_flags(self.register_a);
    }

    /// LDX.
    pub fn ldx(&mut self, mode: &AddressingMode)
        requires
            *mode != AddressingMode::NoneAddressing,
        ensures
            final(self)@ == old(self)@.ldx(*mode),
    {
        let value = self.operand(mode);
        self.register_x = value;
        self.update_zero_and_negative_flags(self.register_x);
    }

    /// LDY.
    pub fn ldy(&mut self, mode: &AddressingMode)
        requires
            *mode != AddressingMode::NoneAddressing,
        ensures
            final(self)@ == old(self)@.ldy(*mode),
    {
        let value = self.operand(mode);
        self.register_y = value;
        self.update_zero_and_negative_flags(self.register_y);
    }

    /// TAX.
    pub fn tax(&mut self)
        ensures
            final(self)@ == old(self)@.tax(),
    {
        self.register_x = self.register_a;
        self.update_zero_and_negative_flags(self.register_x);
    }

    /// TXA.
    pub fn txa(&mut self)
        ensures
            final(self)@ == old(self)@.txa(),
    {
        self.register_a = self.register_x;
        self.update_zero_and_negative_flags(self.register_a);
    }

    /// TAY.
    pub fn tay(&mut self)
        ensures
            final(self)@ == old(self)@.tay(),
    {
        self.register_y = self.register_a;
        self.update_zero_and_negative_flags(self.register_y);
    }

    /// TYA.
    pub fn tya(&mut self)
        ensures
            final(self)@ == old(self)@.tya(),
    {
        self.register_a = self.register_y;
        self.update_zero_and_negative_flags(self.register_a);
    }

    /// TSX.
    pub fn tsx(&mut self)
        ensures
            final(self)@ == old(self)@.tsx(),
    {
        self.register_x = self.stack_ptr;
        self.update_zero_and_negative_flags(self.register_x);
    }

    /// TXS.
    pub fn txs(&mut self)
        ensures
            final(self)@ == old(self)@.txs(),
    {
        self.stack_ptr = self.register_x;
    }

    /// INX.
    pub fn inx(&mut self)
        ensures
            final(self)@ == old(self)@.inx(),
    {
        self.register_x = self.register_x.wrapping_add(1);
        self.update_zero_and_negative_flags(self.register_x);
    }

    /// DEX.
    pub fn dex(&mut self)
        ensures
            final(self)@ == old(self)@.dex(),
    {
        self.register_x = self.register_x.wrapping_sub(1);
        self.update_zero_and_negative_flags(self.register_x);
    }

    /// INY.
    pub fn iny(&mut self)
        ensures
            final(self)@ == old(self)@.iny(),
    {
        self.register_y = self.register_y.wrapping_add(1);
        self.update_zero_and_negative_flags(self.register_y);
    }

    /// DEY.
    pub fn dey(&mut self)
        ensures
            final(self)@ == old(self)@.dey(),
    {
        self.register_y = self.register_y.wrapping_sub(1);
        self.update_zero_and_negative_flags(self.register_y);
    }

    /// INC.
    pub fn inc(&mut self, mode: &AddressingMode)
        requires
            *mode != AddressingMode::NoneAddressing,
        ensures
            final(self)@ == old(self)@.inc(*mode),
    {
        let addr = self.operand_address(mode);
        let value = self.mem_read(addr).wrapping_add(1);
        self.mem_write(addr, value);
        self.update_zero_and_negative_flags(value);
    }

    /// DEC.
    pub fn dec(&mut self, mode: &AddressingMode)
        requires
            *mode != AddressingMode::NoneAddressing,
        ensures
            final(self)@ == old(self)@.dec(*mode),
    {
        let addr = self.operand_address(mode);
        let value = self.mem_read(addr).wrapping_sub(1);
        self.mem_write(addr, value);
        self.update_zero_and_negative_flags(value);
    }

    /// AND.
    pub fn and(&mut self, mode: &AddressingMode)
        requires
            *mode != AddressingMode::NoneAddressing,
        ensures
            final(self)@ == old(self)@.and(*mode),
    {
        let value = self.operand(mode);
        self.register_a = self.register_a & value;
        self.update_zero_and_negative_flags(self.register_a);
    }

    /// ORA.
    pub fn ora(&mut self, mode: &AddressingMode)
        requires
            *mode != AddressingMode::NoneAddressing,
        ensures
            final(self)@ == old(self)@.ora(*mode),
    {
        let value = self.operand(mode);
        self.register_a = self.register_a | value;
        self.update_zero_and_negative_flags(self.register_a);
    }

    /// EOR.
    pub fn eor(&mut self, mode: &AddressingMode)
        requires
            *mode != AddressingMode::NoneAddressing,
        ensures
            final(self)@ == old(self)@.eor(*mode),
    {
        let value = self.operand(mode);
        self.register_a = self.register_a ^ value;
        self.update_zero_and_negative_flags(self.register_a);
    }

    /// BIT.
    pub fn bit(&mut self, mode: &AddressingMode)
        requires
            *mode != AddressingMode::NoneAddressing,
        ensures
            final(self)@ == old(self)@.bit(*mode),
    {
        let value = self.operand(mode);
        proof {
            lemma_sign_bit(value);
        }
        self.assign_flag(ZERO, self.register_a & value == 0);
        self.assign_flag(NEGATIVE, value & NEGATIVE != 0);
        self.assign_flag(OVERFLOW, value & OVERFLOW != 0);
    }

    /// Adds `value` and the carry flag to A, and sets Carry, Overflow, Zero
    /// and Negative from the sum.
    pub fn add_to_reg_a(&mut self, value: u8)
        ensures
            final(self)@ == old(self)@.add_to_a(value),
    {
        let carry: u16 = if self.flag(CARRY) {
            1
        } else {
            0
        };
        let sum: u16 = (self.register_a as u16) + (value as u16) + carry;
        let carried = sum > 0xFF;
        let result: u8 = if carried {
            (sum - 0x100) as u8
        } else {
            sum as u8
        };
        let overflow = (value ^ result) & (result ^ self.register_a) & 0x80 != 0;
        proof {
            lemma_overflow_test(self.register_a, value, carry as u8, result);
        }
        self.register_a = result;
        self.assign_flag(CARRY, carried);
        self.assign_flag(OVERFLOW, overflow);
        self.update_zero_and_negative_flags(result);
    }

    /// ADC.
    pub fn adc(&mut self, mode: &AddressingMode)
        requires
            *mode != AddressingMode::NoneAddressing,
        ensures
            final(self)@ == old(self)@.adc(*mode),
    {
        let value = self.operand(mode);
        self.add_to_reg_a(value);
    }

    /// SBC.
    pub fn sbc(&mut self, mode: &AddressingMode)
        requires
            *mode != AddressingMode::NoneAddressing,
        ensures
            final(self)@ == old(self)@.sbc(*mode),
    {
        let value = self.operand(mode);
        self.add_to_reg_a(ones_complement(value));
    }

    /// CMP, CPX, CPY: compares `reg` with the operand.
    pub fn compare(&mut self, reg: u8, mode: &AddressingMode)
        requires
            *mode != AddressingMode::NoneAddressing,
        ensures
            final(self)@ == old(self)@.compare(reg, *mode),
    {
        let value = self.operand(mode);
        let res = reg.wrapping_sub(value);
        proof {
            lemma_sign_bit(res);
        }
        self.assign_flag(CARRY, reg >= value);
        self.assign_flag(ZERO, reg == value);
        self.assign_flag(NEGATIVE, res & 0x80 != 0);
    }

    /// ASL, on A under `NoneAddressing` and on memory otherwise.
    pub fn asl(&mut self, mode: &AddressingMode)
        ensures
            final(self)@ == old(self)@.asl(*mode),
    {
        let old_val: u8;
        let new_val: u8;
        match mode {
            AddressingMode::NoneAddressing => {
                old_val = self.register_a;
                new_val = old_val << 1;
                self.register_a = new_val;
            },
            _ => {
                let addr = self.operand_address(mode);
                old_val = self.mem_read(addr);
                new_val = old_val << 1;
                self.mem_write(addr, new_val);
            },
        }
        proof {
            lemma_shifts(old_val, 0);
        }
        self.assign_flag(CARRY, old_val & 0x80 != 0);
        self.update_zero_and_negative_flags(new_val);
    }

    /// The work of LSR on one value: returns `val` shifted right, having
    /// moved its bit 0 to Carry and set Zero and Negative from the result.
    pub fn lsr_val(&mut self, val: u8) -> (shifted: u8)
        ensures
            shifted == val / 2,
            final(self)@ == old(self)@.with_flag(CARRY, val % 2 == 1).with_zero_negative(shifted),
    {
        proof {
            lemma_shifts(val, 0);
        }
        self.assign_flag(CARRY, val & 0x01 != 0);
        let shifted = val >> 1;
        self.update_zero_and_negative_flags(shifted);
        shifted
    }

    /// The work of ROL on one value: returns `val` rotated left through
    /// Carry, having moved its bit 7 to Carry and set Zero and Negative from
    /// the result.
    pub fn rol_val(&mut self, val: u8) -> (shifted: u8)
        ensures
            shifted == (2 * val + carry_in(old(self)@.status)) % 256,
            final(self)@ == old(self)@.with_flag(CARRY, val >= 0x80).with_zero_negative(shifted),
    {
        let carry: u8 = if self.flag(CARRY) {
            0x01
        } else {
            0x00
        };
        proof {
            lemma_shifts(val, carry);
        }
        self.assign_flag(CARRY, val & 0x80 != 0);
        let shifted = (val << 1) | carry;
        self.update_zero_and_negative_flags(shifted);
        shifted
    }

    /// The work of ROR on one value: returns `val` rotated right through
    /// Carry, having moved its bit 0 to Carry and set Zero and Negative from
    /// the result.
    pub fn ror_val(&mut self, val: u8) -> (shifted: u8)
        ensures
            shifted == val / 2 + 128 * carry_in(old(self)@.status),
            final(self)@ == old(self)@.with_flag(CARRY, val % 2 == 1).with_zero_negative(shifted),
    {
        let carry: u8 = if self.flag(CARRY) {
            0x80
        } else {
            0x00
        };
        proof {
            lemma_shifts(val, carry / 0x80);
        }
        self.assign_flag(CARRY, val & 0x01 != 0);
        let shifted = (val >> 1) | carry;
        self.update_zero_and_negative_flags(shifted);
        shifted
    }

    /// LSR, on A under `NoneAddressing` and on memory otherwise.
    pub fn lsr(&mut self, mode: &AddressingMode)
        ensures
            final(self)@ == old(self)@.lsr(*mode),
    {
        match mode {
            AddressingMode::NoneAddressing => {
                let shifted = self.lsr_val(self.register_a);
                self.register_a = shifted;
            },
            _ => {
                let addr = self.operand_address(mode);
                let shifted = self.lsr_val(self.mem_read(addr));
                self.mem_write(addr, shifted);
            },
        }
    }

    /// ROL, on A under `NoneAddressing` and on memory otherwise.
    pub fn rol(&mut self, mode: &AddressingMode)
        ensures
            final(self)@ == old(self)@.rol(*mode),
    {
        match mode {
            AddressingMode::NoneAddressing => {
                let rolled = self.rol_val(self.register_a);
                self.register_a = rolled;
            },
            _ => {
                let addr = self.operand_address(mode);
                let rolled = self.rol_val(self.mem_read(addr));
                self.mem_write(addr, rolled);
            },
        }
    }

    /// ROR, on A under `NoneAddressing` and on memory otherwise.
    pub fn ror(&mut self, mode: &AddressingMode)
        ensures
            final(self)@ == old(self)@.ror(*mode),
    {
        match mode {
            AddressingMode::NoneAddressing => {
                let rolled = self.ror_val(self.register_a);
                self.register_a = rolled;
            },
            _ => {
                let addr = self.operand_address(mode);
                let rolled = self.ror_val(self.mem_read(addr));
                self.mem_write(addr, rolled);
            },
        }
    }

    /// A branch: when `cond` holds, moves the program counter to the
    /// address after the offset byte plus the signed offset.
    pub fn branch(&mut self, cond: bool)
        ensures
            final(self)@ == old(self)@.branch(cond),
    {
        if cond {
            let value = self.mem_read(self.program_counter);
            let jump_addr = displace(self.program_counter.wrapping_add(1), value);
            self.program_counter = jump_addr;
        }
    }

    /// JMP, absolute under `Absolute` and indirect otherwise. An indirect
    /// jump through a pointer on the last byte of a page takes its high byte
    /// from the first byte of that page.
    pub fn jmp(&mut self, mode: &AddressingMode)
        ensures
            final(self)@ == old(self)@.jmp(*mode),
    {
        match mode {
            AddressingMode::Absolute => {
                let mem_address = self.operand_address(mode);
                self.program_counter = mem_address;
            },
            _ => {
                let mem_address = self.mem_read_u16(self.program_counter);
                let indirect_ref = if mem_address & 0x00FF == 0x00FF {
                    let lo = self.mem_read(mem_address);
                    let hi = self.mem_read(mem_address & 0xFF00);
                    make_word(lo, hi)
                } else {
                    self.mem_read_u16(mem_address)
                };
                assert(old(self)@.indirect_target(mem_address) == indirect_ref) by {
                    assert((mem_address & 0x00FF == 0x00FF) == (mem_address % 256 == 255)
                        && mem_address & 0xFF00 == 256 * (mem_address / 256)) by (bit_vector);
                }
                self.program_counter = indirect_ref;
            },
        }
    }

    /// JSR: pushes the address of the instruction's last byte, high byte
    /// first, then jumps to the operand address.
    pub fn jsr(&mut self, mode: &AddressingMode)
        requires
            *mode != AddressingMode::NoneAddressing,
        ensures
            final(self)@ == old(self)@.jsr(*mode),
    {
        let addr = self.program_counter.wrapping_add(1);
        self.push_stack(high(addr));
        self.push_stack(low(addr));
        self.program_counter = self.operand_address(mode);
    }

    /// RTS: pulls a word, low byte first, and jumps to the address after
    /// it.
    pub fn rts(&mut self)
        ensures
            final(self)@ == old(self)@.rts(),
    {
        let lo = self.pull_stack();
        let hi = self.pull_stack();
        self.program_counter = make_word(lo, hi).wrapping_add(1);
    }

    /// RTI: pulls the status, clearing Break and setting the unused bit,
    /// then pulls the program counter, low byte first.
    pub fn rti(&mut self)
        ensures
            final(self)@ == old(self)@.rti(),
    {
        self.status = self.pull_stack();
        self.rem_flag(BREAK);
        self.set_flag(UNUSED);
        let lo = self.pull_stack();
        let hi = self.pull_stack();
        self.program_counter = make_word(lo, hi);
    }

    /// PLA.
    pub fn pla(&mut self)
        ensures
            final(self)@ == old(self)@.pla(),
    {
        self.register_a = self.pull_stack();
        self.update_zero_and_negative_flags(self.register_a);
    }

    /// PLP.
    pub fn plp(&mut self)
        ensures
            final(self)@ == old(self)@.plp(),
    {
        self.status = self.pull_stack();
    }
}

} // verus!
