//! A MOS 6502 instruction interpreter with machine-checked contracts.
//!
//! The crate models the processor twice. [`machine::Machine`] is the
//! mathematical state with one pure function per instruction; [`cpu::CPU`]
//! is the executable processor, every method of which is proved to compute
//! what the model says.

pub mod cpu;
pub mod dispatch;
pub mod instructions;
pub mod laws;
pub mod machine;
pub mod opcodes;
pub mod status;
pub mod word;
