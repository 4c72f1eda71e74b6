//! Fetch, decode, execute: one instruction at a time, or until the program
//! halts.

use vstd::prelude::*;
use crate::cpu::{AddressingMode, CpuError, CPU};
use crate::laws::law_larger_budget_same_run;
use crate::opcodes::{lookup, table};
use crate::status::{CARRY, DECIMAL_MODE, INTERRUPT_DISABLE, NEGATIVE, OVERFLOW, ZERO};

verus! {

impl CPU {
    /// Runs the instruction `code` under `mode`, the mode of its row in the
    /// opcode table. The program counter points just past the opcode.
    #[verifier::rlimit(40)]
    fn execute(&mut self, code: u8, mode: &AddressingMode)
        requires
            table(code) matches Some(row) && row.address_mode == *mode,
        ensures
            final(self)@ == old(self)@.execute(code, *mode),
    {
        match code {
            0x85 | 0x95 | 0x8D | 0x9D | 0x99 | 0x81 | 0x91 => {
                self.write_reg(mode, self.register_a)
            },
            0x86 | 0x96 | 0x8E => self.write_reg(mode, self.register_x),
            0x84 | 0x94 | 0x8C => self.write_reg(mode, self.register_y),
            0xA9 | 0xA5 | 0xB5 | 0xAD | 0xBD | 0xB9 | 0xA1 | 0xB1 => self.lda(mode),
            0xA2 | 0xA6 | 0xB6 | 0xAE | 0xBE => self.ldx(mode),
            0xA0 | 0xA4 | 0xB4 | 0xAC | 0xBC => self.ldy(mode),
            0xAA => self.tax(),
            0x8A => self.txa(),
            0xA8 => self.tay(),
            0x98 => self.tya(),
            0xBA => self.tsx(),
            0x9A => self.txs(),
            0xE8 => self.inx(),
            0xCA => self.dex(),
            0xC8 => self.iny(),
            0x88 => self.dey(),
            0xE6 | 0xF6 | 0xEE | 0xFE => self.inc(mode),
            0xC6 | 0xD6 | 0xCE | 0xDE => self.dec(mode),
            0x29 | 0x25 | 0x35 | 0x2D | 0x3D | 0x39 | 0x21 | 0x31 => self.and(mode),
            0x49 | 0x45 | 0x55 | 0x4D | 0x5D | 0x59 | 0x41 | 0x51 => self.eor(mode),
            0x09 | 0x05 | 0x15 | 0x0D | 0x1D | 0x19 | 0x01 | 0x11 => self.ora(mode),
            0x24 | 0x2C => self.bit(mode),
            0x69 | 0x65 | 0x75 | 0x6D | 0x7D | 0x79 | 0x61 | 0x71 => self.adc(mode),
            0xE9 | 0xE5 | 0xF5 | 0xED | 0xFD | 0xF9 | 0xE1 | 0xF1 => self.sbc(mode),
            0xC9 | 0xC5 | 0xD5 | 0xCD | 0xDD | 0xD9 | 0xC1 | 0xD1 => {
                self.compare(self.register_a, mode)
            },
            0xE0 | 0xE4 | 0xEC => self.compare(self.register_x, mode),
            0xC0 | 0xC4 | 0xCC => self.compare(self.register_y, mode),
            0x0A | 0x06 | 0x16 | 0x0E | 0x1E => self.asl(mode),
            0x4A | 0x46 | 0x56 | 0x4E | 0x5E => self.lsr(mode),
            0x2A | 0x26 | 0x36 | 0x2E | 0x3E => self.rol(mode),
            0x6A | 0x66 | 0x76 | 0x6E | 0x7E => self.ror(mode),
            0x10 => self.branch(!self.flag(NEGATIVE)),
            0x30 => self.branch(self.flag(NEGATIVE)),
            0x50 => self.branch(!self.flag(OVERFLOW)),
            0x70 => self.branch(self.flag(OVERFLOW)),
            0x90 => self.branch(!self.flag(CARRY)),
            0xB0 => self.branch(self.flag(CARRY)),
            0xD0 => self.branch(!self.flag(ZERO)),
            0xF0 => self.branch(self.flag(ZERO)),
            0x4C | 0x6C => self.jmp(mode),
            0x20 => self.jsr(mode),
            0x60 => self.rts(),
            0x40 => self.rti(),
            0x48 => self.push_stack(self.register_a),
            0x68 => self.pla(),
            0x08 => self.push_stack(self.status),
            0x28 => self.plp(),
            0x18 => self.rem_flag(CARRY),
            0x38 => self.set_flag(CARRY),
            0x58 => self.rem_flag(INTERRUPT_DISABLE),
            0x78 => self.set_flag(INTERRUPT_DISABLE),
            0xB8 => self.rem_flag(OVERFLOW),
            0xD8 => self.rem_flag(DECIMAL_MODE),
            0xF8 => self.set_flag(DECIMAL_MODE),
            _ => (),
        }
    }

    /// Executes the instruction at the program counter.
    ///
    /// Returns `Ok(true)` after BRK, the halt instruction, and `Ok(false)`
    /// after any other. A byte that is no opcode is reported as
    /// `DecodeError`; the program counter has then moved past that byte and
    /// nothing else has changed.
    pub fn next(&mut self) -> (halted: Result<bool, CpuError>)
        ensures
            halted == old(self)@.step_outcome(),
            final(self)@ == old(self)@.step(),
    {
        let code = self.mem_read(self.program_counter);
        self.program_counter = self.program_counter.wrapping_add(1);
        let program_counter_state = self.program_counter;

        let opcode = match lookup(code) {
            Some(row) => row,
            None => {
                return Err(CpuError::DecodeError { code });
            },
        };

        self.execute(code, &opcode.address_mode);

        if program_counter_state == self.program_counter {
            self.program_counter = self.program_counter.wrapping_add((opcode.bytes - 1) as u16);
        }
        Ok(code == 0x00)
    }

    /// Executes instructions until one is BRK, or the byte at the program
    /// counter is no opcode, or `budget` instructions have run.
    ///
    /// Returns `Ok(true)` after BRK, `Ok(false)` when the budget ran out
    /// first, and `DecodeError` for the byte that stopped the run; the
    /// program counter has then moved past that byte.
    pub fn run_with_budget(&mut self, budget: u64) -> (halted: Result<bool, CpuError>)
        ensures
            halted == old(self)@.run_outcome(budget as nat),
            final(self)@ == old(self)@.run(budget as nat),
    {
        let mut left = budget;
        while left > 0
            invariant
                self@.run_outcome(left as nat) == old(self)@.run_outcome(budget as nat),
                self@.run(left as nat) == old(self)@.run(budget as nat),
            decreases left,
        {
            match self.next() {
                Ok(false) => {
                    left -= 1;
                },
                stopped => {
                    return stopped;
                },
            }
        }
        Ok(false)
    }

    /// Executes instructions until one is BRK or the byte at the program
    /// counter is no opcode.
    ///
    /// The run is `run_with_budget` with the largest budget there is,
    /// `u64::MAX` instructions. A program that stops within any budget
    /// leaves the processor where that stop left it.
    pub fn run(&mut self) -> (halted: Result<bool, CpuError>)
        ensures
            halted == old(self)@.run_outcome(u64::MAX as nat),
            final(self)@ == old(self)@.run(u64::MAX as nat),
            forall|budget: nat|
                budget <= u64::MAX && #[trigger] old(self)@.stops_within(budget) ==> {
                    &&& halted == old(self)@.run_outcome(budget)
                    &&& final(self)@ == old(self)@.run(budget)
                },
    {
        proof {
            let start = self@;
            assert forall|budget: nat|
                budget <= u64::MAX && #[trigger] start.stops_within(budget) implies {
                &&& start.run_outcome(u64::MAX as nat) == start.run_outcome(budget)
                &&& start.run(u64::MAX as nat) == start.run(budget)
            } by {
                law_larger_budget_same_run(start, budget, u64::MAX as nat);
            }
        }
        self.run_with_budget(u64::MAX)
    }

    /// Loads `program`, resets and runs.
    pub fn load_and_run(&mut self, program: Vec<u8>) -> (halted: Result<bool, CpuError>)
        requires
            old(self)@.fits(program@.len()),
        ensures
            halted == old(self)@.load(program@).reset().run_outcome(u64::MAX as nat),
            final(self)@ == old(self)@.load(program@).reset().run(u64::MAX as nat),
            forall|budget: nat|
                budget <= u64::MAX && #[trigger] old(self)@.load(program@).reset().stops_within(
                    budget,
                ) ==> {
                    &&& halted == old(self)@.load(program@).reset().run_outcome(budget)
                    &&& final(self)@ == old(self)@.load(program@).reset().run(budget)
                },
    {
        self.load(program);
        self.reset();
        self.run()
    }
}

} // verus!
