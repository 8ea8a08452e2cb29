//! A verified instruction-set simulator for the SM83 processor core,
//! the CPU at the heart of the Game Boy.
//!
//! The crate models the register file, the 65536-byte working memory, an
//! immutable instruction store, and the full primary and 0xCB-prefixed
//! opcode tables.  Each call to [`cpu::SoC::one_step`] fetches, decodes and
//! executes exactly one instruction, advancing the program counter, stack
//! pointer, flags and cycle counter.  Every state change is pinned down by
//! a contract over the ghost machine state [`state::CpuV`].

pub mod state;
pub mod cpu;
pub mod isa;
pub mod ops;
pub mod step;
pub mod laws;

pub use cpu::SoC;
