//! The mathematical model of the processor.
//!
//! A [`Machine`] is the whole state as plain values: the registers, the
//! dirty flag and the 65536 cells of memory as a sequence. Each instruction
//! is a pure function from machines to machines, [`Machine::step`] is one
//! fetch, decode and execute, and [`Machine::run`] is a bounded run. The
//! executable processor is specified against these functions and nothing
//! else.

use vstd::prelude::*;
use crate::cpu::AddressingMode;
use crate::cpu::AddressingMode::{
    Absolute, Absolute_X, Absolute_Y, Immediate, Indirect_X, Indirect_Y, NoneAddressing, ZeroPage,
    ZeroPage_X, ZeroPage_Y,
};
use crate::cpu::CpuError;
use crate::opcodes::table;
use crate::status::{
    carry_in, flag_on, sign_bit, with_flag, with_zero_negative, BREAK, CARRY, DECIMAL_MODE,
    INTERRUPT_DISABLE, NEGATIVE, OVERFLOW, UNUSED, ZERO,
};
use crate::word::{complement, displaced, high_byte, low_byte, signed, word};

verus! {

/// Number of memory cells: one for every 16-bit address.
pub const MEMORY_SIZE: usize = 0x10000;

/// First address of the stack page. The stack pointer is an offset into it.
pub const STACK_PAGE: u16 = 0x0100;

/// Address of the two bytes that hold the entry point, low byte first.
pub const RESET_VECTOR: u16 = 0xFFFC;

/// Address at which a program image is loaded, unless the processor is
/// built with another.
pub const PROGRAM_ORIGIN: u16 = 0x0600;

/// First address of the observed region.
pub const OBSERVED_FIRST: u16 = 0x0200;

/// Last address of the observed region.
pub const OBSERVED_LAST: u16 = 0x05FF;

/// Whether a write to `addr` raises the dirty flag.
pub open spec fn observed(addr: u16) -> bool {
    OBSERVED_FIRST <= addr <= OBSERVED_LAST
}

/// The address of the stack slot that the stack pointer `sp` names. It lies
/// in the stack page for every `sp`.
pub open spec fn stack_address(sp: u8) -> u16 {
    (STACK_PAGE + sp) as u16
}

/// The state of the processor as plain values.
#[verifier::ext_equal]
pub struct Machine {
    /// Accumulator.
    pub a: u8,
    /// Index register X.
    pub x: u8,
    /// Index register Y.
    pub y: u8,
    /// Status register, laid out `NV1BDIZC`.
    pub status: u8,
    /// Program counter.
    pub pc: u16,
    /// Stack pointer, an offset into the stack page.
    pub sp: u8,
    /// Dirty flag: a write has hit the observed region.
    pub update: bool,
    /// A flag that the host owns; no instruction reads or writes it.
    pub check: bool,
    /// Load origin: the address at which program images are loaded. Fixed
    /// when the processor is built.
    pub origin: u16,
    /// Memory, one byte per address.
    pub mem: Seq<u8>,
}

impl Machine {
    /// Memory has a cell for every address.
    pub open spec fn wf(self) -> bool {
        self.mem.len() == MEMORY_SIZE
    }

    /// The machine at power-on, built to load at `origin`: every register
    /// and every cell zero.
    pub open spec fn power_on(origin: u16) -> Machine {
        Machine {
            a: 0,
            x: 0,
            y: 0,
            status: 0,
            pc: 0,
            sp: 0,
            update: false,
            check: false,
            origin,
            mem: Seq::new(MEMORY_SIZE as nat, |i: int| 0u8),
        }
    }

    // Memory

    /// The byte at `addr`.
    pub open spec fn read(self, addr: u16) -> u8 {
        self.mem[addr as int]
    }

    /// The machine after `data` is written to `addr`. The dirty flag is
    /// raised when `addr` lies in the observed region.
    pub open spec fn write(self, addr: u16, data: u8) -> Machine {
        Machine {
            mem: self.mem.update(addr as int, data),
            update: self.update || observed(addr),
            ..self
        }
    }

    /// The little-endian word at `addr`; the high byte of a word at 0xFFFF
    /// comes from address 0.
    pub open spec fn read16(self, addr: u16) -> u16 {
        word(self.read(addr), self.read(addr.wrapping_add(1)))
    }

    /// The machine after the little-endian word `data` is written to `addr`,
    /// low byte first.
    pub open spec fn write16(self, addr: u16, data: u16) -> Machine {
        self.write(addr, low_byte(data)).write(addr.wrapping_add(1), high_byte(data))
    }

    // Lifecycle

    /// Whether a program of `len` bytes fits between the load origin and
    /// the top of memory.
    pub open spec fn fits(self, len: nat) -> bool {
        self.origin + len <= MEMORY_SIZE
    }

    /// The machine after `program` is copied to the load origin and the
    /// reset vector is pointed at it. The copy is not a write in the sense of
    /// the dirty flag.
    pub open spec fn load(self, program: Seq<u8>) -> Machine {
        Machine {
            mem: Seq::new(
                self.mem.len(),
                |i: int|
                    if self.origin <= i < self.origin + program.len() {
                        program[i - self.origin]
                    } else {
                        self.mem[i]
                    },
            ),
            ..self
        }.write16(RESET_VECTOR, self.origin)
    }

    /// The machine after reset: A, X, Y, status and stack pointer zero, the
    /// program counter taken from the reset vector. Memory, the load origin
    /// and the two host flags stay.
    pub open spec fn reset(self) -> Machine {
        Machine { a: 0, x: 0, y: 0, status: 0, sp: 0, pc: self.read16(RESET_VECTOR), ..self }
    }

    // Addressing. The program counter points at the first operand byte.

    /// The word that page zero holds at `at`; its high byte comes from
    /// `at + 1` within page zero.
    pub open spec fn zero_page_pointer(self, at: u8) -> u16 {
        word(self.read(at as u16), self.read(at.wrapping_add(1) as u16))
    }

    /// The effective address of the operand under `mode`. Without meaning
    /// for `NoneAddressing`.
    pub open spec fn operand_address(self, mode: AddressingMode) -> u16 {
        match mode {
            Immediate => self.pc,
            ZeroPage => self.read(self.pc) as u16,
            ZeroPage_X => self.read(self.pc).wrapping_add(self.x) as u16,
            ZeroPage_Y => self.read(self.pc).wrapping_add(self.y) as u16,
            Absolute => self.read16(self.pc),
            Absolute_X => self.read16(self.pc).wrapping_add(self.x as u16),
            Absolute_Y => self.read16(self.pc).wrapping_add(self.y as u16),
            Indirect_X => self.zero_page_pointer(self.read(self.pc).wrapping_add(self.x)),
            Indirect_Y => self.zero_page_pointer(self.read(self.pc)).wrapping_add(self.y as u16),
            NoneAddressing => arbitrary(),
        }
    }

    /// The operand under `mode`.
    pub open spec fn operand(self, mode: AddressingMode) -> u8 {
        self.read(self.operand_address(mode))
    }

    // Flags

    /// The machine with `flag` set or cleared, by `on`.
    pub open spec fn with_flag(self, flag: u8, on: bool) -> Machine {
        Machine { status: with_flag(self.status, flag, on), ..self }
    }

    /// The machine with Zero and Negative recomputed from `result`.
    pub open spec fn with_zero_negative(self, result: u8) -> Machine {
        Machine { status: with_zero_negative(self.status, result), ..self }
    }

    // Stack

    /// The machine after `data` is pushed: the stack pointer moves down one
    /// slot, wrapping within the page, and the new slot takes `data`.
    pub open spec fn push(self, data: u8) -> Machine {
        let sp = self.sp.wrapping_sub(1);
        Machine { sp, ..self }.write(stack_address(sp), data)
    }

    /// The byte that a pull returns: the one in the slot of the stack
    /// pointer.
    pub open spec fn top(self) -> u8 {
        self.read(stack_address(self.sp))
    }

    /// The machine after a pull: the stack pointer moves up one slot,
    /// wrapping within the page.
    pub open spec fn pull(self) -> Machine {
        Machine { sp: self.sp.wrapping_add(1), ..self }
    }

    // Loads, stores, transfers

    /// STA, STX, STY: `value` goes to the operand address.
    pub open spec fn store(self, mode: AddressingMode, value: u8) -> Machine {
        self.write(self.operand_address(mode), value)
    }

    /// LDA.
    pub open spec fn lda(self, mode: AddressingMode) -> Machine {
        let value = self.operand(mode);
        Machine { a: value, ..self }.with_zero_negative(value)
    }

    /// LDX.
    pub open spec fn ldx(self, mode: AddressingMode) -> Machine {
        let value = self.operand(mode);
        Machine { x: value, ..self }.with_zero_negative(value)
    }

    /// LDY.
    pub open spec fn ldy(self, mode: AddressingMode) -> Machine {
        let value = self.operand(mode);
        Machine { y: value, ..self }.with_zero_negative(value)
    }

    /// TAX.
    pub open spec fn tax(self) -> Machine {
        Machine { x: self.a, ..self }.with_zero_negative(self.a)
    }

    /// TXA.
    pub open spec fn txa(self) -> Machine {
        Machine { a: self.x, ..self }.with_zero_negative(self.x)
    }

    /// TAY.
    pub open spec fn tay(self) -> Machine {
        Machine { y: self.a, ..self }.with_zero_negative(self.a)
    }

    /// TYA.
    pub open spec fn tya(self) -> Machine {
        Machine { a: self.y, ..self }.with_zero_negative(self.y)
    }

    /// TSX.
    pub open spec fn tsx(self) -> Machine {
        Machine { x: self.sp, ..self }.with_zero_negative(self.sp)
    }

    /// TXS. The one transfer that leaves the flags alone.
    pub open spec fn txs(self) -> Machine {
        Machine { sp: self.x, ..self }
    }

    // Increments and decrements, all wrapping within 8 bits

    /// INX.
    pub open spec fn inx(self) -> Machine {
        let value = self.x.wrapping_add(1);
        Machine { x: value, ..self }.with_zero_negative(value)
    }

    /// DEX.
    pub open spec fn dex(self) -> Machine {
        let value = self.x.wrapping_sub(1);
        Machine { x: value, ..self }.with_zero_negative(value)
    }

    /// INY.
    pub open spec fn iny(self) -> Machine {
        let value = self.y.wrapping_add(1);
        Machine { y: value, ..self }.with_zero_negative(value)
    }

    /// DEY.
    pub open spec fn dey(self) -> Machine {
        let value = self.y.wrapping_sub(1);
        Machine { y: value, ..self }.with_zero_negative(value)
    }

    /// INC.
    pub open spec fn inc(self, mode: AddressingMode) -> Machine {
        let addr = self.operand_address(mode);
        let value = self.read(addr).wrapping_add(1);
        self.write(addr, value).with_zero_negative(value)
    }

    /// DEC.
    pub open spec fn dec(self, mode: AddressingMode) -> Machine {
        let addr = self.operand_address(mode);
        let value = self.read(addr).wrapping_sub(1);
        self.write(addr, value).with_zero_negative(value)
    }

    // Logic

    /// AND.
    pub open spec fn and(self, mode: AddressingMode) -> Machine {
        let value = self.a & self.operand(mode);
        Machine { a: value, ..self }.with_zero_negative(value)
    }

    /// ORA.
    pub open spec fn ora(self, mode: AddressingMode) -> Machine {
        let value = self.a | self.operand(mode);
        Machine { a: value, ..self }.with_zero_negative(value)
    }

    /// EOR.
    pub open spec fn eor(self, mode: AddressingMode) -> Machine {
        let value = self.a ^ self.operand(mode);
        Machine { a: value, ..self }.with_zero_negative(value)
    }

    /// BIT: Zero tells whether A and the operand share no bit; Negative and
    /// Overflow copy bit 7 and bit 6 of the operand. A stays.
    pub open spec fn bit(self, mode: AddressingMode) -> Machine {
        let value = self.operand(mode);
        self.with_flag(ZERO, self.a & value == 0).with_flag(NEGATIVE, sign_bit(value)).with_flag(
            OVERFLOW,
            flag_on(value, OVERFLOW),
        )
    }

    // Arithmetic

    /// A plus `value` plus the carry flag. A takes the sum modulo 256.
    /// Carry tells whether the sum passed 255; Overflow tells whether the
    /// sum of the same numbers, A and `value` read as signed bytes, left the
    /// range of a signed byte; Zero and Negative follow the new A.
    pub open spec fn add_to_a(self, value: u8) -> Machine {
        let sum = self.a + value + carry_in(self.status);
        let signed_sum = signed(self.a) + signed(value) + carry_in(self.status);
        let result = (sum % 256) as u8;
        Machine { a: result, ..self }.with_flag(CARRY, sum > 0xFF).with_flag(
            OVERFLOW,
            !(-128 <= signed_sum <= 127),
        ).with_zero_negative(result)
    }

    /// ADC.
    pub open spec fn adc(self, mode: AddressingMode) -> Machine {
        self.add_to_a(self.operand(mode))
    }

    /// SBC: the one's complement of the operand goes through the adder, so
    /// that a clear carry borrows one more.
    pub open spec fn sbc(self, mode: AddressingMode) -> Machine {
        self.add_to_a(complement(self.operand(mode)))
    }

    /// CMP, CPX, CPY, with `register` the value compared: Carry tells
    /// whether the register is at least the operand, Zero whether they are
    /// equal; Negative is bit 7 of the register minus the operand, a
    /// difference that no register receives.
    pub open spec fn compare(self, register: u8, mode: AddressingMode) -> Machine {
        let value = self.operand(mode);
        self.with_flag(CARRY, register >= value).with_flag(ZERO, register == value).with_flag(
            NEGATIVE,
            sign_bit(register.wrapping_sub(value)),
        )
    }

    // Shifts and rotates, on A under `NoneAddressing` and on memory otherwise

    /// The value that a shift or rotate works on.
    pub open spec fn shift_input(self, mode: AddressingMode) -> u8 {
        if mode == NoneAddressing {
            self.a
        } else {
            self.operand(mode)
        }
    }

    /// The machine after a shift or rotate has produced `result` and moved
    /// `carry` out: the result goes back where the input came from, Carry
    /// takes `carry`, Zero and Negative follow the result.
    pub open spec fn shift_output(self, mode: AddressingMode, result: u8, carry: bool) -> Machine {
        let placed = if mode == NoneAddressing {
            Machine { a: result, ..self }
        } else {
            self.write(self.operand_address(mode), result)
        };
        placed.with_flag(CARRY, carry).with_zero_negative(result)
    }

    /// ASL: the value doubles, modulo 256; bit 7, which leaves, goes to
    /// Carry.
    pub open spec fn asl(self, mode: AddressingMode) -> Machine {
        let value = self.shift_input(mode);
        self.shift_output(mode, ((2 * value) % 256) as u8, value >= 0x80)
    }

    /// LSR: the value halves; bit 0, which leaves, goes to Carry.
    pub open spec fn lsr(self, mode: AddressingMode) -> Machine {
        let value = self.shift_input(mode);
        self.shift_output(mode, value / 2, value % 2 == 1)
    }

    /// ROL: the value doubles, modulo 256, and the old Carry comes in as
    /// bit 0; bit 7 goes to Carry.
    pub open spec fn rol(self, mode: AddressingMode) -> Machine {
        let value = self.shift_input(mode);
        self.shift_output(
            mode,
            ((2 * value + carry_in(self.status)) % 256) as u8,
            value >= 0x80,
        )
    }

    /// ROR: the value halves and the old Carry comes in as bit 7; bit 0
    /// goes to Carry.
    pub open spec fn ror(self, mode: AddressingMode) -> Machine {
        let value = self.shift_input(mode);
        self.shift_output(mode, (value / 2 + 128 * carry_in(self.status)) as u8, value % 2 == 1)
    }

    // Control flow. The program counter points just past the opcode.

    /// A branch: when `taken`, the program counter becomes the address
    /// after the offset byte, moved by the signed offset.
    pub open spec fn branch(self, taken: bool) -> Machine {
        if taken {
            Machine { pc: displaced(self.pc.wrapping_add(1), self.read(self.pc)), ..self }
        } else {
            self
        }
    }

    /// The target of an indirect jump through `pointer`. Both bytes come
    /// from the page of `pointer`: the byte after the last one of a page is
    /// the first one of the same page.
    pub open spec fn indirect_target(self, pointer: u16) -> u16 {
        word(
            self.read(pointer),
            self.read(word(low_byte(pointer).wrapping_add(1), high_byte(pointer))),
        )
    }

    /// JMP, absolute under `Absolute`, indirect otherwise.
    pub open spec fn jmp(self, mode: AddressingMode) -> Machine {
        if mode == Absolute {
            Machine { pc: self.operand_address(Absolute), ..self }
        } else {
            Machine { pc: self.indirect_target(self.read16(self.pc)), ..self }
        }
    }

    /// JSR: the address of the instruction's last byte is pushed, high byte
    /// first; then the target is read and becomes the program counter.
    pub open spec fn jsr(self, mode: AddressingMode) -> Machine {
        let last = self.pc.wrapping_add(1);
        let pushed = self.push(high_byte(last)).push(low_byte(last));
        Machine { pc: pushed.operand_address(mode), ..pushed }
    }

    /// RTS: a word is pulled, low byte first; the program counter becomes
    /// the address after it.
    pub open spec fn rts(self) -> Machine {
        let lo = self.top();
        let hi = self.pull().top();
        Machine { pc: word(lo, hi).wrapping_add(1), ..self.pull().pull() }
    }

    /// RTI: the status is pulled, with Break cleared and the unused bit
    /// set; then the program counter is pulled, low byte first.
    pub open spec fn rti(self) -> Machine {
        let status = with_flag(with_flag(self.top(), BREAK, false), UNUSED, true);
        let lo = self.pull().top();
        let hi = self.pull().pull().top();
        Machine { status, pc: word(lo, hi), ..self.pull().pull().pull() }
    }

    /// PLA.
    pub open spec fn pla(self) -> Machine {
        let value = self.top();
        Machine { a: value, ..self.pull() }.with_zero_negative(value)
    }

    /// PLP: the status is pulled as it is.
    pub open spec fn plp(self) -> Machine {
        Machine { status: self.top(), ..self.pull() }
    }

    // Dispatch

    /// The machine after the instruction `code` has run under `mode`, the
    /// program counter pointing just past the opcode before and, unless the
    /// instruction redirects control, after. A byte that is no opcode leaves
    /// the machine as it is.
    pub open spec fn execute(self, code: u8, mode: AddressingMode) -> Machine {
        match code {
            0x85 | 0x95 | 0x8D | 0x9D | 0x99 | 0x81 | 0x91 => self.store(mode, self.a),
            0x86 | 0x96 | 0x8E => self.store(mode, self.x),
            0x84 | 0x94 | 0x8C => self.store(mode, self.y),
            0xA9 | 0xA5 | 0xB5 | 0xAD | 0xBD | 0xB9 | 0xA1 | 0xB1 => self.lda(mode),
            0xA2 | 0xA6 | 0xB6 | 0xAE | 0xBE => self.ldx(mode),
            0xA0 | 0xA4 | 0xB4 | 0xAC | 0xBC => self.ldy(mode),
            0xAA => self.tax(),
            0x8A => self.txa(),
            0xA8 => self.tay(),
            0x98 => self.tya(),
            0xBA => self.tsx(),
            0x9A => self.txs(),
            0xE8 => self.inx(),
            0xCA => self.dex(),
            0xC8 => self.iny(),
            0x88 => self.dey(),
            0xE6 | 0xF6 | 0xEE | 0xFE => self.inc(mode),
            0xC6 | 0xD6 | 0xCE | 0xDE => self.dec(mode),
            0x29 | 0x25 | 0x35 | 0x2D | 0x3D | 0x39 | 0x21 | 0x31 => self.and(mode),
            0x49 | 0x45 | 0x55 | 0x4D | 0x5D | 0x59 | 0x41 | 0x51 => self.eor(mode),
            0x09 | 0x05 | 0x15 | 0x0D | 0x1D | 0x19 | 0x01 | 0x11 => self.ora(mode),
            0x24 | 0x2C => self.bit(mode),
            0x69 | 0x65 | 0x75 | 0x6D | 0x7D | 0x79 | 0x61 | 0x71 => self.adc(mode),
            0xE9 | 0xE5 | 0xF5 | 0xED | 0xFD | 0xF9 | 0xE1 | 0xF1 => self.sbc(mode),
            0xC9 | 0xC5 | 0xD5 | 0xCD | 0xDD | 0xD9 | 0xC1 | 0xD1 => self.compare(self.a, mode),
            0xE0 | 0xE4 | 0xEC => self.compare(self.x, mode),
            0xC0 | 0xC4 | 0xCC => self.compare(self.y, mode),
            0x0A | 0x06 | 0x16 | 0x0E | 0x1E => self.asl(mode),
            0x4A | 0x46 | 0x56 | 0x4E | 0x5E => self.lsr(mode),
            0x2A | 0x26 | 0x36 | 0x2E | 0x3E => self.rol(mode),
            0x6A | 0x66 | 0x76 | 0x6E | 0x7E => self.ror(mode),
            0x10 => self.branch(!flag_on(self.status, NEGATIVE)),
            0x30 => self.branch(flag_on(self.status, NEGATIVE)),
            0x50 => self.branch(!flag_on(self.status, OVERFLOW)),
            0x70 => self.branch(flag_on(self.status, OVERFLOW)),
            0x90 => self.branch(!flag_on(self.status, CARRY)),
            0xB0 => self.branch(flag_on(self.status, CARRY)),
            0xD0 => self.branch(!flag_on(self.status, ZERO)),
            0xF0 => self.branch(flag_on(self.status, ZERO)),
            0x4C | 0x6C => self.jmp(mode),
            0x20 => self.jsr(mode),
            0x60 => self.rts(),
            0x40 => self.rti(),
            0x48 => self.push(self.a),
            0x68 => self.pla(),
            0x08 => self.push(self.status),
            0x28 => self.plp(),
            0x18 => self.with_flag(CARRY, false),
            0x38 => self.with_flag(CARRY, true),
            0x58 => self.with_flag(INTERRUPT_DISABLE, false),
            0x78 => self.with_flag(INTERRUPT_DISABLE, true),
            0xB8 => self.with_flag(OVERFLOW, false),
            0xD8 => self.with_flag(DECIMAL_MODE, false),
            0xF8 => self.with_flag(DECIMAL_MODE, true),
            _ => self,
        }
    }

    /// The byte at the program counter.
    pub open spec fn opcode(self) -> u8 {
        self.read(self.pc)
    }

    /// The byte at the program counter is an opcode of the instruction set.
    pub open spec fn decodable(self) -> bool {
        table(self.opcode()) is Some
    }

    /// The instruction at the program counter is BRK, the halt instruction.
    pub open spec fn at_break(self) -> bool {
        self.opcode() == 0x00
    }

    /// The machine with the program counter moved past the opcode.
    pub open spec fn fetched(self) -> Machine {
        Machine { pc: self.pc.wrapping_add(1), ..self }
    }

    /// One fetch, decode and execute. The opcode is read and the program
    /// counter moved past it; the instruction runs; and if the program
    /// counter still stands where it stood after the fetch, it moves past
    /// the operand bytes. A byte that is no opcode ends the step after the
    /// fetch.
    pub open spec fn step(self) -> Machine {
        match table(self.opcode()) {
            Some(row) => {
                let done = self.fetched().execute(self.opcode(), row.address_mode);
                if done.pc == self.fetched().pc {
                    Machine { pc: done.pc.wrapping_add((row.bytes - 1) as u16), ..done }
                } else {
                    done
                }
            },
            None => self.fetched(),
        }
    }

    /// What one step reports: whether the instruction was BRK, or the byte
    /// that could not be decoded.
    pub open spec fn step_outcome(self) -> Result<bool, CpuError> {
        if self.decodable() {
            Ok(self.at_break())
        } else {
            Err(CpuError::DecodeError { code: self.opcode() })
        }
    }

    /// The machine after a run of at most `budget` steps. The run ends
    /// early with the step that executes a BRK or finds a byte that is no
    /// opcode.
    pub open spec fn run(self, budget: nat) -> Machine
        decreases budget,
    {
        if budget == 0 {
            self
        } else if !self.decodable() || self.at_break() {
            self.step()
        } else {
            self.step().run((budget - 1) as nat)
        }
    }

    /// What a run of at most `budget` steps reports: `Ok(true)` when it
    /// ended with a BRK, `Ok(false)` when the budget ran out first, and the
    /// error of the step that could not be decoded.
    pub open spec fn run_outcome(self, budget: nat) -> Result<bool, CpuError>
        decreases budget,
    {
        if budget == 0 {
            Ok(false)
        } else if !self.decodable() || self.at_break() {
            self.step_outcome()
        } else {
            self.step().run_outcome((budget - 1) as nat)
        }
    }

    /// A run of at most `budget` steps ends with a BRK.
    pub open spec fn halts_within(self, budget: nat) -> bool {
        self.run_outcome(budget) == Ok::<bool, CpuError>(true)
    }

    /// A run of at most `budget` steps ends before the budget does: with a
    /// BRK, or at a byte that is no opcode.
    pub open spec fn stops_within(self, budget: nat) -> bool {
        self.run_outcome(budget) != Ok::<bool, CpuError>(false)
    }
}

} // verus!
