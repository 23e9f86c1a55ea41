//! The CPU state: 32 integer registers and a program counter.

use vstd::prelude::*;

verus! {

/// One RV32 hart's register state.
///
/// Integer register `x0` is wired to zero: writes to it are discarded and
/// reads return 0. The program counter always has its low bit clear; a write
/// that attempts to set it silently clears it.
pub struct Cpu {
    registers: Vec<u32>,
    pc: u32,
}

impl Cpu {
    /// The integer register file, as a 32-element sequence. Slot 0 is the
    /// constant zero.
    pub closed spec fn regs(&self) -> Seq<u32> {
        self.registers@
    }

    /// The current program counter.
    pub closed spec fn pc_value(&self) -> u32 {
        self.pc
    }

    /// Structural invariant: 32 register slots, slot 0 zero, and an even
    /// program counter.
    pub open spec fn wf(&self) -> bool {
        &&& self.regs().len() == 32
        &&& self.regs()[0] == 0
        &&& self.pc_value() & 1 == 0
    }

    /// A CPU with all registers zero and the program counter zero.
    pub fn new() -> (r: Cpu)
        ensures
            r.wf(),
            r.pc_value() == 0,
            forall|i: int| 0 <= i < 32 ==> r.regs()[i] == 0,
    {
        let mut registers: Vec<u32> = Vec::new();
        let mut i: usize = 0;
        while i < 32
            invariant
                i <= 32,
                registers@.len() == i,
                forall|j: int| 0 <= j < i ==> registers@[j] == 0,
            decreases 32 - i,
        {
            registers.push(0);
            i = i + 1;
        }
        proof {
            assert(0u32 & 1 == 0) by (bit_vector);
        }
        Cpu { registers, pc: 0 }
    }

    /// Register 0 reads as zero in every reachable CPU state: every
    /// constructor and mutator of this type preserves [`Cpu::wf`], and a
    /// well-formed CPU holds zero in slot 0, which is what
    /// [`Cpu::get_register`] returns for index 0.
    pub proof fn lemma_register_zero(&self)
        requires
            self.wf(),
        ensures
            self.regs()[0] == 0,
    {
    }

    /// Read the program counter.
    pub fn get_pc(&self) -> (r: u32)
        ensures
            r == self.pc_value(),
    {
        self.pc
    }

    /// Set the program counter. The low bit of the new value is silently
    /// cleared, so the program counter invariant holds afterwards.
    pub fn put_pc(&mut self, new_pc: u32)
        ensures
            final(self).pc_value() == new_pc & !1u32,
            final(self).regs() == old(self).regs(),
            old(self).wf() ==> final(self).wf(),
    {
        proof {
            assert((new_pc & !1u32) & 1 == 0) by (bit_vector);
        }
        self.pc = new_pc & !1;
    }

    /// Read integer register `index`. Register 0 always reads as zero.
    ///
    /// An index of 32 or more is a programmer error and is excluded by
    /// precondition.
    pub fn get_register(&self, index: u32) -> (r: u32)
        requires
            self.wf(),
            index < 32,
        ensures
            r == self.regs()[index as int],
            index == 0 ==> r == 0,
    {
        if index >= 1 {
            self.registers[index as usize]
        } else {
            0
        }
    }

    /// Write integer register `index`. Writes to register 0 are discarded.
    ///
    /// An index of 32 or more is a programmer error and is excluded by
    /// precondition.
    pub fn put_register(&mut self, index: u32, value: u32)
        requires
            old(self).wf(),
            index < 32,
        ensures
            final(self).wf(),
            final(self).pc_value() == old(self).pc_value(),
            index == 0 ==> final(self).regs() == old(self).regs(),
            index >= 1 ==> final(self).regs() == old(self).regs().update(index as int, value),
    {
        if index >= 1 {
            self.registers.set(index as usize, value);
        }
    }
}

} // verus!
