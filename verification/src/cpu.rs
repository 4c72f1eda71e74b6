//! The processor: its registers, its memory and the errors it reports.

use vstd::prelude::*;
use crate::machine::{
    Machine, MEMORY_SIZE, OBSERVED_FIRST, OBSERVED_LAST, PROGRAM_ORIGIN, RESET_VECTOR, STACK_PAGE,
};
use crate::status::{assign_flag, assign_zero_negative, flag_on, test_flag};
use crate::word::{high, low, make_word};

verus! {

/// How an instruction finds its operand.
#[derive(Debug, Clone, Copy, PartialEq, Eq, Structural)]
#[allow(non_camel_case_types)]
pub enum AddressingMode {
    /// The operand is the byte that follows the opcode.
    Immediate,
    /// The operand byte is an address in page zero.
    ZeroPage,
    /// Page-zero address plus X, wrapping within page zero.
    ZeroPage_X,
    /// Page-zero address plus Y, wrapping within page zero.
    ZeroPage_Y,
    /// The two operand bytes are the address, low byte first.
    Absolute,
    /// Absolute address plus X, wrapping within 16 bits.
    Absolute_X,
    /// Absolute address plus Y, wrapping within 16 bits.
    Absolute_Y,
    /// The address is read from page zero at operand plus X.
    Indirect_X,
    /// The address is read from page zero at the operand; Y is added to it.
    Indirect_Y,
    /// The instruction has no operand in memory.
    NoneAddressing,
}

/// Why the processor stopped without executing an instruction.
#[derive(Debug, Clone, Copy, PartialEq, Eq, Structural)]
pub enum CpuError {
    /// The byte at the program counter is no opcode of the instruction set.
    DecodeError {
        /// The offending byte.
        code: u8,
    },
    /// An operand address was asked for under `AddressingMode::NoneAddressing`.
    AddressingError,
}

/// The processor and its memory.
pub struct CPU {
    /// Accumulator.
    pub register_a: u8,
    /// Index register X.
    pub register_x: u8,
    /// Index register Y.
    pub register_y: u8,
    /// Status register, laid out `NV1BDIZC`.
    pub status: u8,
    /// Program counter.
    pub program_counter: u16,
    /// Dirty flag: set by every write into the observed region, cleared
    /// only by the host.
    pub update: bool,
    /// A flag that the host owns; no instruction reads or writes it.
    pub check: bool,
    /// Load origin: the address at which program images are loaded.
    pub origin: u16,
    /// Memory, one byte per address.
    pub memory: [u8; MEMORY_SIZE],
    /// Stack pointer, an offset into the stack page.
    pub stack_ptr: u8,
}

impl View for CPU {
    type V = Machine;

    open spec fn view(&self) -> Machine {
        Machine {
            a: self.register_a,
            x: self.register_x,
            y: self.register_y,
            status: self.status,
            pc: self.program_counter,
            sp: self.stack_ptr,
            update: self.update,
            check: self.check,
            origin: self.origin,
            mem: self.memory@,
        }
    }
}

impl CPU {
    /// A processor at power-on: every register and every memory cell zero.
    /// It loads program images at `PROGRAM_ORIGIN`.
    pub fn new() -> (cpu: Self)
        ensures
            cpu@ == Machine::power_on(PROGRAM_ORIGIN),
    {
        CPU::with_origin(PROGRAM_ORIGIN)
    }

    /// A processor at power-on that loads program images at `origin`.
    pub fn with_origin(origin: u16) -> (cpu: Self)
        ensures
            cpu@ == Machine::power_on(origin),
    {
        CPU {
            register_a: 0,
            register_x: 0,
            register_y: 0,
            status: 0,
            program_counter: 0,
            update: false,
            check: false,
            origin,
            memory: [0; MEMORY_SIZE],
            stack_ptr: 0,
        }
    }

    /// The model of every processor is well formed, so that every law of
    /// the model holds of it.
    pub proof fn law_view_is_well_formed(&self)
        ensures
            self@.wf(),
    {
    }

    /// The memory, for hosts that read it in bulk.
    pub fn memory(&self) -> (cells: &[u8; MEMORY_SIZE])
        ensures
            cells@ == self@.mem,
    {
        &self.memory
    }

    /// Reads the byte at `addr`.
    pub fn mem_read(&self, addr: u16) -> (data: u8)
        ensures
            data == self@.read(addr),
    {
        self.memory[addr as usize]
    }

    /// Writes `data` to `addr`, and raises the dirty flag when `addr` lies
    /// in the observed region.
    pub fn mem_write(&mut self, addr: u16, data: u8)
        ensures
            final(self)@ == old(self)@.write(addr, data),
    {
        self.memory[addr as usize] = data;
        if addr >= OBSERVED_FIRST && addr <= OBSERVED_LAST {
            self.update = true;
        }
    }

    /// Reads the little-endian word at `pos`.
    pub fn mem_read_u16(&self, pos: u16) -> (data: u16)
        ensures
            data == self@.read16(pos),
    {
        let lo = self.mem_read(pos);
        let hi = self.mem_read(pos.wrapping_add(1));
        make_word(lo, hi)
    }

    /// Writes the little-endian word `data` to `pos`, low byte first.
    pub fn mem_write_u16(&mut self, pos: u16, data: u16)
        ensures
            final(self)@ == old(self)@.write16(pos, data),
    {
        self.mem_write(pos, low(data));
        self.mem_write(pos.wrapping_add(1), high(data));
    }

    /// Copies `program` to the load origin and points the reset vector at
    /// it. Registers stay as they are. The program has to fit between the
    /// load origin and the top of memory.
    pub fn load(&mut self, program: Vec<u8>)
        requires
            old(self)@.fits(program@.len()),
        ensures
            final(self)@ == old(self)@.load(program@),
    {
        let origin = self.origin as usize;
        let mut copied: usize = 0;
        while copied < program.len()
            invariant
                origin == old(self)@.origin,
                copied <= program@.len(),
                old(self)@.fits(program@.len()),
                self@ == (Machine {
                    mem: Seq::new(
                        MEMORY_SIZE as nat,
                        |i: int|
                            if origin <= i < origin + copied {
                                program@[i - origin]
                            } else {
                                old(self)@.mem[i]
                            },
                    ),
                    ..old(self)@
                }),
            decreases program@.len() - copied,
        {
            self.memory[origin + copied] = program[copied];
            copied += 1;
        }
        self.mem_write_u16(RESET_VECTOR, self.origin);
    }

    /// Zeroes A, X, Y, the status and the stack pointer, and takes the
    /// program counter from the reset vector.
    pub fn reset(&mut self)
        ensures
            final(self)@ == old(self)@.reset(),
    {
        self.register_a = 0;
        self.register_x = 0;
        self.register_y = 0;
        self.status = 0;
        self.stack_ptr = 0x00;
        self.program_counter = self.mem_read_u16(RESET_VECTOR);
    }

    /// Loads `program` and resets, ready for the first step.
    pub fn load_pro(&mut self, program: Vec<u8>)
        requires
            old(self)@.fits(program@.len()),
        ensures
            final(self)@ == old(self)@.load(program@).reset(),
    {
        self.load(program);
        self.reset();
    }

    /// Clears the dirty flag, once the host has redrawn.
    pub fn reset_update(&mut self)
        ensures
            final(self)@ == (Machine { update: false, ..old(self)@ }),
    {
        self.update = false;
    }

    /// Clears the dirty flag, once the host has delivered a key.
    pub fn key_press(&mut self)
        ensures
            final(self)@ == (Machine { update: false, ..old(self)@ }),
    {
        self.update = false;
    }

    /// Sets the flags in `flag`.
    pub fn set_flag(&mut self, flag: u8)
        ensures
            final(self)@ == old(self)@.with_flag(flag, true),
    {
        self.status = assign_flag(self.status, flag, true);
    }

    /// Clears the flags in `flag`.
    pub fn rem_flag(&mut self, flag: u8)
        ensures
            final(self)@ == old(self)@.with_flag(flag, false),
    {
        self.status = assign_flag(self.status, flag, false);
    }

    /// Sets or clears the flags in `flag`, by `on`.
    pub fn assign_flag(&mut self, flag: u8, on: bool)
        ensures
            final(self)@ == old(self)@.with_flag(flag, on),
    {
        self.status = assign_flag(self.status, flag, on);
    }

    /// Whether one of the flags in `flag` is set.
    pub fn flag(&self, flag: u8) -> (on: bool)
        ensures
            on == flag_on(self@.status, flag),
    {
        test_flag(self.status, flag)
    }

    /// Recomputes Zero and Negative from `result`.
    pub fn update_zero_and_negative_flags(&mut self, result: u8)
        ensures
            final(self)@ == old(self)@.with_zero_negative(result),
    {
        self.status = assign_zero_negative(self.status, result);
    }

    /// Pushes `data`: moves the stack pointer down one slot, wrapping
    /// within the stack page, and writes `data` there.
    pub fn push_stack(&mut self, data: u8)
        ensures
            final(self)@ == old(self)@.push(data),
    {
        self.stack_ptr = self.stack_ptr.wrapping_sub(1);
        self.mem_write(STACK_PAGE + (self.stack_ptr as u16), data);
    }

    /// Pulls a byte: reads the slot of the stack pointer, then moves the
    /// stack pointer up one slot, wrapping within the stack page.
    pub fn pull_stack(&mut self) -> (data: u8)
        ensures
            data == old(self)@.top(),
            final(self)@ == old(self)@.pull(),
    {
        let data = self.mem_read(STACK_PAGE + (self.stack_ptr as u16));
        self.stack_ptr = self.stack_ptr.wrapping_add(1);
        data
    }

    /// The effective address of the operand under `mode`, with the program
    /// counter on the first operand byte.
    pub fn operand_address(&self, mode: &AddressingMode) -> (addr: u16)
        requires
            *mode != AddressingMode::NoneAddressing,
        ensures
            addr == self@.operand_address(*mode),
    {
        match mode {
            AddressingMode::Immediate => self.program_counter,
            AddressingMode::ZeroPage => self.mem_read(self.program_counter) as u16,
            AddressingMode::Absolute => self.mem_read_u16(self.program_counter),
            AddressingMode::ZeroPage_X => {
                let pos = self.mem_read(self.program_counter);
                pos.wrapping_add(self.register_x) as u16
            },
            AddressingMode::ZeroPage_Y => {
                let pos = self.mem_read(self.program_counter);
                pos.wrapping_add(self.register_y) as u16
            },
            AddressingMode::Absolute_X => {
                let base = self.mem_read_u16(self.program_counter);
                base.wrapping_add(self.register_x as u16)
            },
            AddressingMode::Absolute_Y => {
                let base = self.mem_read_u16(self.program_counter);
                base.wrapping_add(self.register_y as u16)
            },
            AddressingMode::Indirect_X => {
                let base = self.mem_read(self.program_counter);
                let ptr = base.wrapping_add(self.register_x);
                let lo = self.mem_read(ptr as u16);
                let hi = self.mem_read(ptr.wrapping_add(1) as u16);
                make_word(lo, hi)
            },
            AddressingMode::Indirect_Y => {
                let base = self.mem_read(self.program_counter);
                let lo = self.mem_read(base as u16);
                let hi = self.mem_read(base.wrapping_add(1) as u16);
                make_word(lo, hi).wrapping_add(self.register_y as u16)
            },
            AddressingMode::NoneAddressing => unreached(),
        }
    }

    /// The operand under `mode`.
    pub fn operand(&self, mode: &AddressingMode) -> (value: u8)
        requires
            *mode != AddressingMode::NoneAddressing,
        ensures
            value == self@.operand(*mode),
    {
        let addr = self.operand_address(mode);
        self.mem_read(addr)
    }

    /// The effective address of the operand under `mode`, or
    /// `AddressingError` where `mode` names no operand.
    pub fn get_operand_address(&self, mode: &AddressingMode) -> (addr: Result<u16, CpuError>)
        ensures
            addr == (if *mode == AddressingMode::NoneAddressing {
                Err(CpuError::AddressingError)
            } else {
                Ok(self@.operand_address(*mode))
            }),
    {
        match mode {
            AddressingMode::NoneAddressing => Err(CpuError::AddressingError),
            _ => Ok(self.operand_address(mode)),
        }
    }

    /// The operand under `mode`, or `AddressingError` where `mode` names no
    /// operand. The processor stays as it is.
    pub fn get_value(&mut self, mode: &AddressingMode) -> (value: Result<u8, CpuError>)
        ensures
            *final(self) == *old(self),
            value == (if *mode == AddressingMode::NoneAddressing {
                Err(CpuError::AddressingError)
            } else {
                Ok(old(self)@.operand(*mode))
            }),
    {
        match mode {
            AddressingMode::NoneAddressing => Err(CpuError::AddressingError),
            _ => Ok(self.operand(mode)),
        }
    }
}

} // verus!
