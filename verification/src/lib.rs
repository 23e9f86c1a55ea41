//! An RV32 instruction-set interpreter core, with machine-checked contracts.
//!
//! The crate models one hart: a register file, a program counter, and a
//! `step` operation that fetches, decodes, and executes one instruction at a
//! time. Memory, CSRs, and environment calls are delegated to a host-supplied
//! [`ExecutionEnvironment`]. A flat word-addressed RAM environment is provided
//! for embedders that do not need memory-mapped devices.

use vstd::prelude::*;

pub mod exception;
pub mod cpu;
pub mod decode;
pub mod alu;
pub mod muldiv;
pub mod env;
pub mod flatmem;
pub mod step;
pub mod snapshot;
pub mod ipl;
pub mod compressed;
pub mod elf;

pub use exception::{
    MachineException, MemoryAccessFailure, ExtensionStatus, ifetch_exception, load_exception,
    store_exception,
};
pub use cpu::Cpu;
pub use decode::{Instruction, decode, encode_instruction, imm_i, imm_s, imm_b, imm_j};
pub use alu::{alu_op, signed_less_than};
pub use muldiv::{m_op, mulh, mulhsu, mulhu, divs, rems};
pub use env::ExecutionEnvironment;
pub use flatmem::FlatMemory;
pub use step::{sext8, sext16};
pub use snapshot::{SerializedCpu, SnapshotError};
pub use ipl::{IplError, initial_program_load};
pub use compressed::expand_compressed;
pub use elf::{
    ElfError, ElfHeader, ElfProgramHeader, ElfSectionHeader, ElfSymbol, parse_elf_header,
    parse_elf_program_header, parse_elf_section_header, parse_elf_symbol,
};

verus! {

/// The value that should be returned when the `mvendorid` CSR is read.
///
/// This is defined as 0, indicating an open source non-commercial
/// implementation of the architecture.
pub const VENDOR_ID: u32 = 0;

/// The value that should be returned when the `marchid` CSR is read.
///
/// An ID of 45 was assigned by the RISC-V Foundation for this core.
pub const ARCH_ID: u32 = 45;

/// The value that should be returned when the `mimpid` CSR is read.
///
/// The bytes encode, in order of decreasing significance: extra flags
/// (currently 0), then the major, minor, and patch version of this crate.
pub const IMPLEMENTATION_ID: u32 = 0x00000100;

} // verus!
