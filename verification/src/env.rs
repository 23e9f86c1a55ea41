//! The execution environment: everything outside the core CPU.

use vstd::prelude::*;

use crate::cpu::Cpu;
use crate::exception::{MachineException, MemoryAccessFailure, ExtensionStatus};

verus! {

/// Everything *outside* of the core CPU: memory space, CSRs, extension
/// state, cycle accounting. The core provides the CPU, the embedder
/// provides one of these, and together they make a whole system.
///
/// Memory is word-addressed with byte-lane masks; `read_word` and
/// `write_word` are the only memory operations an environment must provide.
/// The half, byte, and instruction accessors have default implementations
/// on top of them. Accounting hooks are defaulted in layers from specific
/// to generic, so overriding `account_generic_op` alone observes every
/// instruction, and overriding a specific hook never double-counts.
pub trait ExecutionEnvironment: Sized {
    /// Return true if the A extension (atomics) should ever be supported.
    /// See also [`enable_a`](Self::enable_a).
    fn support_a(&self) -> bool {
        true
    }

    /// Return true if the C extension (compressed instructions) should
    /// ever be supported. See also [`enable_c`](Self::enable_c).
    fn support_c(&self) -> bool {
        true
    }

    /// Return true if the M extension (multiply/divide) should ever be
    /// supported. See also [`enable_m`](Self::enable_m).
    fn support_m(&self) -> bool {
        true
    }

    /// Return true if the A extension should be enabled right now, allowing
    /// atomic memory accesses.
    ///
    /// Only checked if [`support_a`](Self::support_a) is true.
    fn enable_a(&self) -> bool {
        true
    }

    /// Return true if the C extension should be enabled right now, allowing
    /// compressed (16-bit) instructions.
    ///
    /// Only checked if [`support_c`](Self::support_c) is true.
    fn enable_c(&self) -> bool {
        true
    }

    /// Return true if the M extension should be enabled right now, allowing
    /// multiply/divide instructions.
    ///
    /// Only checked if [`support_m`](Self::support_m) is true.
    fn enable_m(&self) -> bool {
        true
    }

    /// Return true if the F extension should be enabled right now. This
    /// build carries no float register file, so the flag only matters to
    /// environments shared with float-bearing builds.
    fn enable_f(&self) -> bool {
        true
    }

    /// Return true if the D extension should be enabled right now. See
    /// [`enable_f`](Self::enable_f).
    fn enable_d(&self) -> bool {
        true
    }

    /// Return true if the Q extension should be enabled right now. See
    /// [`enable_f`](Self::enable_f).
    fn enable_q(&self) -> bool {
        true
    }

    /// Return true if the Zicsr extension should be enabled right now,
    /// allowing instructions that read and write CSRs (control and status
    /// registers).
    fn enable_zicsr(&self) -> bool {
        true
    }

    /// Return true if the Zifence extension should be enabled right now,
    /// allowing the `FENCE.I` instruction to execute.
    ///
    /// `FENCE.I` is implemented by ignoring it, because no instruction
    /// cache is emulated.
    fn enable_zifence(&self) -> bool {
        true
    }

    /// Read an entire word from memory. Return `Err(Unaligned)` if the
    /// address is not aligned to a four-byte boundary, **or** determine and
    /// implement unaligned memory access logic yourself.
    ///
    /// `mask` indicates which byte lanes are active. All-ones indicates a
    /// full word read; other values are only provided through the default
    /// implementations of `read_half` and `read_byte`, and can usually be
    /// ignored on reads.
    fn read_word(&mut self, address: u32, mask: u32) -> Result<u32, MemoryAccessFailure>;

    /// Read one instruction word from memory. If C is enabled, this word
    /// might only be 2-byte aligned. The default implementation reads one
    /// or two halfwords for a half-aligned fetch and a full word otherwise.
    ///
    /// The core keeps the low bit of the PC clear, so the address is always
    /// at least 2-byte aligned.
    fn read_instruction(&mut self, address: u32) -> Result<u32, MemoryAccessFailure>
        requires
            address & 1 == 0,
    {
        if address & 2 == 0 {
            // Full word aligned.
            self.read_word(address, 0xffff_ffff)
        } else {
            // Half-word aligned.
            let low_bits = match self.read_half(address) {
                Ok(h) => h,
                Err(e) => {
                    return Err(e);
                },
            };
            if low_bits & 0b11 == 0b11 {
                // A 32-bit (or longer) instruction: fetch the upper half.
                let high_bits = match self.read_half(address.wrapping_add(2)) {
                    Ok(h) => h,
                    Err(e) => {
                        return Err(e);
                    },
                };
                Ok(low_bits as u32 | ((high_bits as u32) << 16))
            } else {
                Ok(low_bits as u32)
            }
        }
    }

    /// Read a halfword from memory. Return `Err(Unaligned)` if the address
    /// is not aligned to a two-byte boundary, **or** determine and
    /// implement unaligned memory access logic yourself. The default
    /// implementation calls `read_word` with an appropriate mask.
    fn read_half(&mut self, address: u32) -> Result<u16, MemoryAccessFailure> {
        if address & 1 != 0 {
            return Err(MemoryAccessFailure::Unaligned);
        }
        let word = match self.read_word(address & !3, halfword_lane_mask(address)) {
            Ok(w) => w,
            Err(e) => {
                return Err(e);
            },
        };
        Ok(extract_half(word, address))
    }

    /// Read a byte from memory. The default implementation calls
    /// `read_word` with an appropriate mask.
    fn read_byte(&mut self, address: u32) -> Result<u8, MemoryAccessFailure> {
        let word = match self.read_word(address & !3, byte_lane_mask(address)) {
            Ok(w) => w,
            Err(e) => {
                return Err(e);
            },
        };
        Ok(extract_byte(word, address))
    }

    /// Write an entire word to memory. `address` is aligned to a four-byte
    /// boundary.
    ///
    /// `mask` indicates which byte lanes are active. All-ones indicates a
    /// full word write. Other values are only provided through the default
    /// implementations of `write_half` and `write_byte`; if you do not
    /// override both of those, only the selected bytes may change.
    fn write_word(&mut self, address: u32, data: u32, mask: u32) -> Result<
        (),
        MemoryAccessFailure,
    >;

    /// Write a halfword to memory. Return `Err(Unaligned)` if the address
    /// is not aligned to a two-byte boundary, **or** determine and
    /// implement unaligned memory access logic yourself. The default
    /// implementation calls `write_word` with an appropriate mask and the
    /// value "splatted" across both halves.
    fn write_half(&mut self, address: u32, data: u16) -> Result<(), MemoryAccessFailure> {
        if address & 1 != 0 {
            return Err(MemoryAccessFailure::Unaligned);
        }
        self.write_word(address & !3, halfword_splat(data), halfword_lane_mask(address))
    }

    /// Write a byte to memory. The default implementation calls
    /// `write_word` with an appropriate mask and the value "splatted"
    /// across all four byte positions.
    fn write_byte(&mut self, address: u32, data: u8) -> Result<(), MemoryAccessFailure> {
        self.write_word(address & !3, byte_splat(data), byte_lane_mask(address))
    }

    /// Perform an aligned word load from memory, and RESERVE that memory.
    /// A future store conditional should only succeed if that memory is
    /// still reserved and intact.
    ///
    /// If `address` is not aligned to a 4-byte boundary, an alignment fault
    /// should be raised even by environments that otherwise handle
    /// misaligned reads.
    fn load_reserved_word(&mut self, address: u32) -> Result<u32, MemoryAccessFailure>;

    /// Perform an aligned word store to memory, but only succeed if that
    /// memory is still RESERVED (by a matching `load_reserved_word` call)
    /// **and** has not been touched by another write since it was reserved.
    /// Returns the success flag, and always clears the reservation.
    fn store_reserved_word(&mut self, address: u32, data: u32) -> Result<
        bool,
        MemoryAccessFailure,
    >;

    /// Respond to an `ECALL` instruction. The default implementation raises
    /// the exception appropriate for `ECALL` in M mode. Overriding this can
    /// accelerate operating environment emulation.
    fn perform_ecall(&mut self, cpu: &mut Cpu) -> (r: Result<(), (MachineException, u32)>)
        requires
            old(cpu).wf(),
        ensures
            final(cpu).wf(),
    {
        Err((MachineException::EcallFromMmode, 0))
    }

    /// Respond to an `EBREAK` instruction. The default implementation
    /// raises the breakpoint exception.
    fn perform_ebreak(&mut self, cpu: &mut Cpu) -> (r: Result<(), (MachineException, u32)>)
        requires
            old(cpu).wf(),
        ensures
            final(cpu).wf(),
    {
        Err((MachineException::Breakpoint, 0))
    }

    /// Read from a CSR. Return `Err(IllegalInstruction)` if the CSR number
    /// is not recognized. All CSRs are the environment's responsibility in
    /// this build; the default implementation recognizes none.
    fn read_csr(&mut self, csr_number: u32) -> Result<u32, MachineException> {
        Err(MachineException::IllegalInstruction)
    }

    /// Write to a CSR. Return `Err(IllegalInstruction)` if the CSR number
    /// is not recognized. The core filters out writes to read-only CSR
    /// numbers before delegating here.
    fn write_csr(&mut self, csr_number: u32, new_value: u32) -> Result<(), MachineException> {
        Err(MachineException::IllegalInstruction)
    }

    /// Return the status of the floating point registers. The default
    /// implementation just returns Dirty all the time, which makes context
    /// switches potentially a little less efficient in an OS environment.
    fn read_fs(&self) -> ExtensionStatus {
        ExtensionStatus::Dirty
    }

    /// Set the status of the floating point registers. The OS may set the
    /// status to Disabled, Initialized, or Clean during a context switch;
    /// the hardware sets it to Dirty in response to a floating point
    /// operation.
    fn write_fs(&mut self, status: ExtensionStatus) {
    }

    /// Return true to use the slow, exact square root for single precision,
    /// false to use the fast, not completely exact one.
    fn use_accurate_single_sqrt(&self) -> bool {
        true
    }

    /// Return true to use the slow, exact square root for double precision,
    /// false to use the fast, not completely exact one.
    fn use_accurate_double_sqrt(&self) -> bool {
        true
    }

    /// Return true to use the slow, exact square root for quad precision.
    /// No exact quad-precision square root is implemented; requesting one
    /// raises an illegal instruction exception, so this defaults to false.
    fn use_accurate_quad_sqrt(&self) -> bool {
        false
    }

    /// An instruction word has been fetched. Called once per instruction.
    fn account_ifetch(&mut self, pc: u32) {
    }

    /// A generic "operation" has been performed.
    fn account_generic_op(&mut self) {
    }

    /// A memory load was performed. Default implementation calls
    /// [`account_memory_op`](Self::account_memory_op).
    fn account_memory_load(&mut self, address: u32) {
        self.account_memory_op(address)
    }

    /// A memory store was performed. Default implementation calls
    /// [`account_memory_op`](Self::account_memory_op).
    fn account_memory_store(&mut self, address: u32) {
        self.account_memory_op(address)
    }

    /// A doubleword memory load was performed. Default implementation calls
    /// [`account_memory_load`](Self::account_memory_load) twice.
    fn account_memory_double_load(&mut self, address: u32) {
        self.account_memory_load(address);
        self.account_memory_load(address.wrapping_add(4))
    }

    /// A doubleword memory store was performed. Default implementation
    /// calls [`account_memory_store`](Self::account_memory_store) twice.
    fn account_memory_double_store(&mut self, address: u32) {
        self.account_memory_store(address);
        self.account_memory_store(address.wrapping_add(4))
    }

    /// A quadword memory load was performed. Default implementation calls
    /// [`account_memory_load`](Self::account_memory_load) four times.
    fn account_memory_quad_load(&mut self, address: u32) {
        self.account_memory_load(address);
        self.account_memory_load(address.wrapping_add(4));
        self.account_memory_load(address.wrapping_add(8));
        self.account_memory_load(address.wrapping_add(12))
    }

    /// A quadword memory store was performed. Default implementation calls
    /// [`account_memory_store`](Self::account_memory_store) four times.
    fn account_memory_quad_store(&mut self, address: u32) {
        self.account_memory_store(address);
        self.account_memory_store(address.wrapping_add(4));
        self.account_memory_store(address.wrapping_add(8));
        self.account_memory_store(address.wrapping_add(12))
    }

    /// A memory operation was performed. Called only by the default
    /// implementations of [`account_memory_load`](Self::account_memory_load)
    /// and [`account_memory_store`](Self::account_memory_store).
    fn account_memory_op(&mut self, address: u32) {
    }

    /// A basic ALU operation has been performed. Default implementation
    /// calls [`account_generic_op`](Self::account_generic_op).
    fn account_alu_op(&mut self) {
        self.account_generic_op()
    }

    /// A multiplication has been performed. Default implementation calls
    /// [`account_alu_op`](Self::account_alu_op).
    fn account_mul_op(&mut self) {
        self.account_alu_op()
    }

    /// A division has been performed. Default implementation calls
    /// [`account_alu_op`](Self::account_alu_op).
    fn account_div_op(&mut self) {
        self.account_alu_op()
    }

    /// An atomic memory access has been performed. Default implementation
    /// calls [`account_generic_op`](Self::account_generic_op).
    fn account_amo_op(&mut self) {
        self.account_generic_op()
    }

    /// An unconditional jump has been performed. Default implementation
    /// calls [`account_generic_op`](Self::account_generic_op).
    fn account_jump_op(&mut self) {
        self.account_generic_op()
    }

    /// A conditional branch has been performed. Default implementation
    /// calls [`account_generic_op`](Self::account_generic_op).
    fn account_branch_op(&mut self, did_take: bool, was_forward: bool) {
        self.account_generic_op()
    }

    /// An ordinary floating point operation has been performed. Default
    /// implementation calls [`account_generic_op`](Self::account_generic_op).
    fn account_float_op(&mut self, num_words: u32) {
        self.account_generic_op()
    }

    /// A floating point division has been performed. Default implementation
    /// calls [`account_float_op`](Self::account_float_op).
    fn account_float_divide(&mut self, num_words: u32) {
        self.account_float_op(num_words)
    }

    /// A three-operand floating point operation has been performed. Default
    /// implementation calls [`account_float_op`](Self::account_float_op).
    fn account_float_ternop(&mut self, num_words: u32) {
        self.account_float_op(num_words)
    }

    /// A conversion from int to float has been performed. Default
    /// implementation calls [`account_float_op`](Self::account_float_op).
    fn account_fcvt_from_int(&mut self, num_words: u32) {
        self.account_float_op(num_words)
    }

    /// A floating point conversion to int has been performed. Default
    /// implementation calls [`account_float_op`](Self::account_float_op).
    fn account_fcvt_to_int(&mut self, num_words: u32) {
        self.account_float_op(num_words)
    }

    /// A floating point square root has been performed: one multiply, plus
    /// one multiply, one divide, and one addition for every iteration.
    /// Default implementation calls
    /// [`account_float_op`](Self::account_float_op) once, then
    /// [`account_float_divide`](Self::account_float_divide) per iteration.
    fn account_sqrt(&mut self, num_words: u32, num_iterations: u32) {
        self.account_float_op(num_words);
        let mut i: u32 = 0;
        while i < num_iterations
            decreases num_iterations - i,
        {
            self.account_float_divide(num_words);
            i = i + 1;
        }
    }
}

/// A byte-lane shift, eight times the low two address bits, is a legal
/// 32-bit shift.
pub proof fn lemma_lane_shift_in_range(address: u32)
    by (bit_vector)
    ensures
        (address & 3) << 3 < 32u32,
        address & 3 < 4,
{
}

/// A word with only the `mask`-selected bits replaced by `data`.
pub open spec fn masked(old_word: u32, data: u32, mask: u32) -> u32 {
    (old_word & !mask) | (data & mask)
}

/// A byte value replicated into all four byte lanes.
pub open spec fn splat(b: u8) -> u32 {
    (b as u32) | ((b as u32) << 8) | ((b as u32) << 16) | ((b as u32) << 24)
}

/// The byte-lane mask selecting the byte `address` refers to.
pub open spec fn lane_mask(address: u32) -> u32 {
    0xffu32 << ((address & 3) << 3)
}

/// A halfword value replicated into both halfword lanes.
pub open spec fn splat_half(h: u16) -> u32 {
    ((h as u32) << 16) | (h as u32)
}

/// The byte-lane mask selecting the halfword `address` refers to.
pub open spec fn half_lane_mask(address: u32) -> u32 {
    if address & 2 != 0 {
        0xffff_0000u32
    } else {
        0x0000_ffffu32
    }
}

/// The byte of a word that `address` selects.
pub open spec fn byte_of_word(word: u32, address: u32) -> u8 {
    ((word >> ((address & 3) << 3)) & 0xff) as u8
}

/// The halfword of a word that `address` selects.
pub open spec fn half_of_word(word: u32, address: u32) -> u16 {
    if address & 2 != 0 {
        (word >> 16) as u16
    } else {
        word as u16
    }
}

/// The byte-lane mask for the byte at `address`.
pub fn byte_lane_mask(address: u32) -> (r: u32)
    ensures
        r == lane_mask(address),
{
    proof {
        lemma_lane_shift_in_range(address);
    }
    0xffu32 << ((address & 3) << 3)
}

/// A byte splatted into all four byte positions of a word.
pub fn byte_splat(b: u8) -> (r: u32)
    ensures
        r == splat(b),
{
    let d = b as u32;
    d | (d << 8) | (d << 16) | (d << 24)
}

/// The byte-lane mask for the halfword at `address`.
pub fn halfword_lane_mask(address: u32) -> (r: u32)
    ensures
        r == half_lane_mask(address),
{
    if address & 2 != 0 {
        0xffff_0000
    } else {
        0x0000_ffff
    }
}

/// A halfword splatted into both halves of a word.
pub fn halfword_splat(h: u16) -> (r: u32)
    ensures
        r == splat_half(h),
{
    ((h as u32) << 16) | (h as u32)
}

/// The byte of `word` that `address` selects.
pub fn extract_byte(word: u32, address: u32) -> (r: u8)
    ensures
        r == byte_of_word(word, address),
{
    proof {
        lemma_lane_shift_in_range(address);
    }
    ((word >> ((address & 3) << 3)) & 0xff) as u8
}

/// The halfword of `word` that `address` selects.
pub fn extract_half(word: u32, address: u32) -> (r: u16)
    ensures
        r == half_of_word(word, address),
{
    if address & 2 != 0 {
        (word >> 16) as u16
    } else {
        word as u16
    }
}

} // verus!
