//! CPU snapshots: the save/restore byte format and its validation.
//!
//! A snapshot holds the 32 register slots as big-endian 32-bit words, with
//! the program counter in slot 0 (architectural register `x0` is the
//! constant zero and carries no state), followed by the configured float
//! width in bytes. This build carries no float registers, so the width is
//! always zero and no float fields are present.

use vstd::prelude::*;

use crate::cpu::Cpu;

verus! {

/// The wire form of a CPU: the raw fields a serializer writes out and a
/// deserializer validates.
pub struct SerializedCpu {
    /// 128 bytes: 32 big-endian 32-bit words. Slot 0 holds the program
    /// counter.
    pub registers: Vec<u8>,
    /// The float register width in bytes; always 0 in this build.
    pub float_bytes: u8,
}

/// Why a snapshot was rejected.
#[derive(Clone, Copy, Debug, PartialEq, Eq, Structural)]
pub enum SnapshotError {
    /// `float_bytes` does not match this configuration.
    InvalidValue,
    /// A field has the wrong length.
    InvalidLength,
}

/// The big-endian bytes of a 32-bit word.
pub open spec fn be_bytes_of(w: u32) -> Seq<u8> {
    seq![
        (w >> 24) as u8,
        ((w >> 16) & 0xff) as u8,
        ((w >> 8) & 0xff) as u8,
        (w & 0xff) as u8,
    ]
}

/// The `i`-th big-endian 32-bit word of a byte sequence.
pub open spec fn be_word_at(bytes: Seq<u8>, i: int) -> u32 {
    ((bytes[4 * i] as u32) << 24) | ((bytes[4 * i + 1] as u32) << 16) | ((bytes[4 * i + 2] as u32)
        << 8) | (bytes[4 * i + 3] as u32)
}

/// Snapshot word `i`: the program counter in slot 0, register `i`
/// otherwise.
pub open spec fn snapshot_word(regs: Seq<u32>, pc: u32, i: int) -> u32 {
    if i == 0 {
        pc
    } else {
        regs[i]
    }
}

/// The 128 snapshot bytes of a register file and program counter.
pub open spec fn snapshot_bytes(regs: Seq<u32>, pc: u32) -> Seq<u8> {
    Seq::new(128, |j: int| be_bytes_of(snapshot_word(regs, pc, j / 4))[j % 4])
}

/// Reassembling the big-endian bytes of a word gives the word back.
proof fn lemma_be_round_trip(w: u32)
    by (bit_vector)
    ensures
        (((w >> 24) as u8 as u32) << 24) | ((((w >> 16) & 0xff) as u8 as u32) << 16) | ((((w >> 8)
            & 0xff) as u8 as u32) << 8) | ((w & 0xff) as u8 as u32) == w,
{
}

/// Reading a snapshot back yields every stored word: the program counter
/// in slot 0 and each register in its own slot.
pub proof fn lemma_snapshot_round_trip(regs: Seq<u32>, pc: u32)
    requires
        regs.len() == 32,
    ensures
        forall|i: int|
            0 <= i < 32 ==> be_word_at(snapshot_bytes(regs, pc), i) == snapshot_word(regs, pc, i),
{
    assert forall|i: int| 0 <= i < 32 implies be_word_at(snapshot_bytes(regs, pc), i)
        == snapshot_word(regs, pc, i) by {
        let w = snapshot_word(regs, pc, i);
        assert(snapshot_bytes(regs, pc)[4 * i] == be_bytes_of(w)[0]);
        assert(snapshot_bytes(regs, pc)[4 * i + 1] == be_bytes_of(w)[1]);
        assert(snapshot_bytes(regs, pc)[4 * i + 2] == be_bytes_of(w)[2]);
        assert(snapshot_bytes(regs, pc)[4 * i + 3] == be_bytes_of(w)[3]);
        lemma_be_round_trip(w);
    }
}

impl Cpu {
    /// Capture this CPU as its snapshot wire form.
    pub fn to_serialized(&self) -> (r: SerializedCpu)
        requires
            self.wf(),
        ensures
            r.registers@ == snapshot_bytes(self.regs(), self.pc_value()),
            r.float_bytes == 0,
    {
        let mut bytes: Vec<u8> = Vec::new();
        let mut i: u32 = 0;
        while i < 32
            invariant
                self.wf(),
                i <= 32,
                bytes@.len() == 4 * i,
                forall|j: int|
                    0 <= j < 4 * i ==> bytes@[j] == snapshot_bytes(self.regs(), self.pc_value())[j],
            decreases 32 - i,
        {
            let w = if i == 0 {
                self.get_pc()
            } else {
                self.get_register(i)
            };
            bytes.push((w >> 24) as u8);
            bytes.push(((w >> 16) & 0xff) as u8);
            bytes.push(((w >> 8) & 0xff) as u8);
            bytes.push((w & 0xff) as u8);
            proof {
                let regs = self.regs();
                let pc = self.pc_value();
                assert forall|j: int| 4 * i <= j < 4 * (i + 1) implies bytes@[j] == snapshot_bytes(
                    regs,
                    pc,
                )[j] by {
                    assert(j / 4 == i as int && j % 4 == j - 4 * i);
                }
            }
            i = i + 1;
        }
        proof {
            assert(bytes@ =~= snapshot_bytes(self.regs(), self.pc_value()));
        }
        SerializedCpu { registers: bytes, float_bytes: 0 }
    }

    /// Rebuild a CPU from its snapshot wire form, validating the float
    /// width and the register field length. The low bit of the restored
    /// program counter is silently cleared, as every program counter write
    /// is.
    pub fn from_serialized(s: &SerializedCpu) -> (r: Result<Cpu, SnapshotError>)
        ensures
            s.float_bytes != 0 ==> r == Err::<Cpu, SnapshotError>(SnapshotError::InvalidValue),
            s.float_bytes == 0 && s.registers@.len() != 128 ==> r == Err::<Cpu, SnapshotError>(
                SnapshotError::InvalidLength,
            ),
            s.float_bytes == 0 && s.registers@.len() == 128 ==> (r matches Ok(c) && {
                &&& c.wf()
                &&& c.pc_value() == be_word_at(s.registers@, 0) & !1u32
                &&& c.regs()[0] == 0
                &&& forall|i: int| 1 <= i < 32 ==> c.regs()[i] == be_word_at(s.registers@, i)
            }),
    {
        if s.float_bytes != 0 {
            return Err(SnapshotError::InvalidValue);
        }
        if s.registers.len() != 128 {
            return Err(SnapshotError::InvalidLength);
        }
        let mut cpu = Cpu::new();
        let mut i: u32 = 0;
        while i < 32
            invariant
                cpu.wf(),
                i <= 32,
                s.registers@.len() == 128,
                i > 0 ==> cpu.pc_value() == be_word_at(s.registers@, 0) & !1u32,
                i == 0 ==> cpu.pc_value() == 0,
                cpu.regs()[0] == 0,
                forall|j: int| 1 <= j < i ==> cpu.regs()[j] == be_word_at(s.registers@, j),
                forall|j: int| i <= j < 32 ==> cpu.regs()[j] == 0,
            decreases 32 - i,
        {
            let base = (i * 4) as usize;
            let w = ((s.registers[base] as u32) << 24) | ((s.registers[base + 1] as u32) << 16) | (
            (s.registers[base + 2] as u32) << 8) | (s.registers[base + 3] as u32);
            if i == 0 {
                cpu.put_pc(w);
            } else {
                cpu.put_register(i, w);
            }
            i = i + 1;
        }
        Ok(cpu)
    }
}

} // verus!
