//! One instruction step: fetch, decode, dispatch, write-back.

use vstd::prelude::*;

use crate::cpu::Cpu;
use crate::env::ExecutionEnvironment;
use crate::exception::{MachineException, ifetch_exception, load_exception, store_exception};
use crate::decode::{Instruction, decode, decode_inst, imm_b_of, imm_j_of};
use crate::alu::{alu_op, alu_result, amo_compute, sig, signed_less_than};
use crate::muldiv::{m_op, m_result};
use crate::compressed::{expand_c, expand_compressed};

verus! {

/// Sign-extend a byte to 32 bits.
pub open spec fn sext8_of(b: u8) -> u32 {
    if b >= 0x80 {
        (b as u32) | 0xffff_ff00
    } else {
        b as u32
    }
}

/// Sign-extend a halfword to 32 bits.
pub open spec fn sext16_of(h: u16) -> u32 {
    if h >= 0x8000 {
        (h as u32) | 0xffff_0000
    } else {
        h as u32
    }
}

/// Sign-extend a loaded byte to a register value.
pub fn sext8(b: u8) -> (r: u32)
    ensures
        r == sext8_of(b),
{
    if b >= 0x80 {
        (b as u32) | 0xffff_ff00
    } else {
        b as u32
    }
}

/// Sign-extend a loaded halfword to a register value.
pub fn sext16(h: u16) -> (r: u32)
    ensures
        r == sext16_of(h),
{
    if h >= 0x8000 {
        (h as u32) | 0xffff_0000
    } else {
        h as u32
    }
}

/// The register file after writing `v` to slot `rd`; a write to slot 0 is
/// discarded.
pub open spec fn reg_write(regs: Seq<u32>, rd: u32, v: u32) -> Seq<u32> {
    if rd == 0 {
        regs
    } else {
        regs.update(rd as int, v)
    }
}

/// The outcome of one instruction that touches only the register file and
/// the program counter: either the new `(registers, pc)` or the exception
/// it raises. `None` marks the instructions whose outcome also depends on
/// the execution environment (memory, CSRs, environment calls).
///
/// `w` is the instruction's 32-bit encoding (used as the trap value of an
/// illegal-instruction exception), `next_pc_in` the fall-through PC, and
/// the flags say which extensions are enabled this step.
pub open spec fn pure_step_result(
    w: u32,
    i: Instruction,
    regs: Seq<u32>,
    pc: u32,
    next_pc_in: u32,
    c_enabled: bool,
    m_enabled: bool,
    zifence_enabled: bool,
) -> Option<Result<(Seq<u32>, u32), (MachineException, u32)>> {
    match i {
        Instruction::Lui { rd, imm } => Some(Ok((reg_write(regs, rd, imm), next_pc_in))),
        Instruction::Auipc { rd, imm } => Some(
            Ok((reg_write(regs, rd, pc.wrapping_add(imm)), next_pc_in)),
        ),
        Instruction::Jal { rd, imm } => {
            let target = pc.wrapping_add(imm);
            if target & 3 != 0 && !c_enabled {
                Some(Err((MachineException::MisalignedPC, target)))
            } else {
                Some(Ok((reg_write(regs, rd, next_pc_in), target)))
            }
        },
        Instruction::Jalr { rd, rs1, imm } => {
            let target = regs[rs1 as int].wrapping_add(imm) & !1u32;
            if target & 3 != 0 && !c_enabled {
                Some(Err((MachineException::MisalignedPC, target)))
            } else {
                Some(Ok((reg_write(regs, rd, next_pc_in), target)))
            }
        },
        Instruction::Branch { funct3, rs1, rs2, imm } => {
            let a = regs[rs1 as int];
            let b = regs[rs2 as int];
            let taken = if funct3 == 0 {
                a == b
            } else if funct3 == 1 {
                a != b
            } else if funct3 == 4 {
                sig(a) < sig(b)
            } else if funct3 == 5 {
                sig(a) >= sig(b)
            } else if funct3 == 6 {
                a < b
            } else {
                a >= b
            };
            if taken {
                let target = pc.wrapping_add(imm);
                if target & 3 != 0 && !c_enabled {
                    Some(Err((MachineException::MisalignedPC, target)))
                } else {
                    Some(Ok((regs, target)))
                }
            } else {
                Some(Ok((regs, next_pc_in)))
            }
        },
        Instruction::OpImm { funct3, rd, rs1, imm } => {
            let alt = funct3 == 5 && imm & 0x400 != 0;
            match alu_result(alt, funct3, regs[rs1 as int], imm) {
                Some(v) => Some(Ok((reg_write(regs, rd, v), next_pc_in))),
                None => Some(Err((MachineException::IllegalInstruction, w))),
            }
        },
        Instruction::Op { funct7, funct3, rd, rs1, rs2 } => {
            if funct7 == 1 {
                if m_enabled {
                    Some(
                        Ok(
                            (
                                reg_write(
                                    regs,
                                    rd,
                                    m_result(funct3, regs[rs1 as int], regs[rs2 as int]),
                                ),
                                next_pc_in,
                            ),
                        ),
                    )
                } else {
                    Some(Err((MachineException::IllegalInstruction, w)))
                }
            } else {
                match alu_result(funct7 == 0x20, funct3, regs[rs1 as int], regs[rs2 as int]) {
                    Some(v) => Some(Ok((reg_write(regs, rd, v), next_pc_in))),
                    None => Some(Err((MachineException::IllegalInstruction, w))),
                }
            }
        },
        Instruction::Fence { .. } => Some(Ok((regs, next_pc_in))),
        Instruction::FenceI { .. } => {
            if zifence_enabled {
                Some(Ok((regs, next_pc_in)))
            } else {
                Some(Err((MachineException::IllegalInstruction, w)))
            }
        },
        _ => None,
    }
}

/// A loaded register value: the raw word an environment read returned,
/// put through the width and sign extension that `funct3` selects.
pub open spec fn load_result(funct3: u32, v: u32) -> u32 {
    if funct3 == 0 {
        sext8_of(v as u8)
    } else if funct3 == 1 {
        sext16_of(v as u16)
    } else if funct3 == 4 {
        (v as u8) as u32
    } else if funct3 == 5 {
        (v as u16) as u32
    } else {
        v
    }
}

/// What one environment-dependent instruction may do, stated over every
/// value the environment can return.
///
/// The library's own decisions are exact: the extension gates, the
/// alignment pre-checks, the trap-value conventions, the error-cause
/// families, which registers may change, and the committed program
/// counter. What the environment decides — the loaded word, a
/// store-conditional's success flag, a CSR's old value, whether an access
/// faults — is bound by shape only: a load's destination holds the
/// extension of *some* returned value, a store-conditional's destination
/// holds 0 or 1, an atomic's destination holds *some* returned old value.
/// ECALL and EBREAK hand the CPU to the host, which owes only
/// well-formedness.
pub open spec fn env_step_outcome(
    w: u32,
    i: Instruction,
    regs: Seq<u32>,
    pc: u32,
    next_pc_in: u32,
    a_enabled: bool,
    zicsr_enabled: bool,
    r: Result<(), (MachineException, u32)>,
    regs2: Seq<u32>,
    pc2: u32,
) -> bool {
    match i {
        Instruction::Load { funct3, rd, rs1, imm } => {
            let addr = regs[rs1 as int].wrapping_add(imm);
            if r is Ok {
                pc2 == next_pc_in && (exists|v: u32|
                    regs2 == reg_write(regs, rd, #[trigger] load_result(funct3, v)))
            } else {
                &&& regs2 == regs
                &&& pc2 == pc
                &&& r->Err_0.1 == addr
                &&& (r->Err_0.0 is MisalignedLoad || r->Err_0.0 is LoadFault
                    || r->Err_0.0 is LoadPageFault)
            }
        },
        Instruction::Store { funct3, rs1, rs2, imm } => {
            let addr = regs[rs1 as int].wrapping_add(imm);
            if r is Ok {
                regs2 == regs && pc2 == next_pc_in
            } else {
                &&& regs2 == regs
                &&& pc2 == pc
                &&& r->Err_0.1 == addr
                &&& (r->Err_0.0 is MisalignedStore || r->Err_0.0 is StoreFault
                    || r->Err_0.0 is StorePageFault)
            }
        },
        Instruction::Csr { funct3, rd, rs1, csr } => {
            if !zicsr_enabled {
                r == Err::<(), (MachineException, u32)>((MachineException::IllegalInstruction, w))
                    && regs2 == regs && pc2 == pc
            } else if (funct3 & 3 == 1 || rs1 != 0) && csr >> 10 == 3 {
                // A write to a read-only CSR number faults before any side
                // effect reaches the environment.
                r == Err::<(), (MachineException, u32)>((MachineException::IllegalInstruction, w))
                    && regs2 == regs && pc2 == pc
            } else if r is Ok {
                pc2 == next_pc_in && (exists|v: u32| regs2 == #[trigger] reg_write(regs, rd, v))
            } else {
                regs2 == regs && pc2 == pc && r->Err_0.1 == w
            }
        },
        Instruction::Amo { funct5, aqrl, rd, rs1, rs2 } => {
            if !a_enabled {
                r == Err::<(), (MachineException, u32)>((MachineException::IllegalInstruction, w))
                    && regs2 == regs && pc2 == pc
            } else {
                let addr = regs[rs1 as int];
                if addr & 3 != 0 {
                    &&& regs2 == regs
                    &&& pc2 == pc
                    &&& r == Err::<(), (MachineException, u32)>(
                        (
                            if funct5 == 2 {
                                MachineException::MisalignedLoad
                            } else {
                                MachineException::MisalignedStore
                            },
                            addr,
                        ),
                    )
                } else if funct5 == 2 {
                    if r is Ok {
                        pc2 == next_pc_in && (exists|v: u32|
                            regs2 == #[trigger] reg_write(regs, rd, v))
                    } else {
                        &&& regs2 == regs
                        &&& pc2 == pc
                        &&& r->Err_0.1 == addr
                        &&& (r->Err_0.0 is MisalignedLoad || r->Err_0.0 is LoadFault
                            || r->Err_0.0 is LoadPageFault)
                    }
                } else if funct5 == 3 {
                    if r is Ok {
                        pc2 == next_pc_in && (regs2 == reg_write(regs, rd, 0) || regs2
                            == reg_write(regs, rd, 1))
                    } else {
                        &&& regs2 == regs
                        &&& pc2 == pc
                        &&& r->Err_0.1 == addr
                        &&& (r->Err_0.0 is MisalignedStore || r->Err_0.0 is StoreFault
                            || r->Err_0.0 is StorePageFault)
                    }
                } else {
                    if r is Ok {
                        pc2 == next_pc_in && (exists|v: u32|
                            regs2 == #[trigger] reg_write(regs, rd, v))
                    } else {
                        &&& regs2 == regs
                        &&& pc2 == pc
                        &&& r->Err_0.1 == addr
                        &&& (r->Err_0.0 is MisalignedLoad || r->Err_0.0 is LoadFault
                            || r->Err_0.0 is LoadPageFault || r->Err_0.0 is MisalignedStore
                            || r->Err_0.0 is StoreFault || r->Err_0.0 is StorePageFault)
                    }
                }
            }
        },
        _ => true,
    }
}

/// The complete statable outcome of executing the 32-bit word `w` from
/// `(regs, pc)` with fall-through program counter `next_pc_in`: exact for
/// undecodable words and for the register-and-PC instructions
/// ([`pure_step_result`]), and the strongest environment-independent
/// statement for the instructions that reach into the environment
/// ([`env_step_outcome`]).
pub open spec fn step_outcome(
    w: u32,
    regs: Seq<u32>,
    pc: u32,
    next_pc_in: u32,
    c_enabled: bool,
    m_enabled: bool,
    a_enabled: bool,
    zifence_enabled: bool,
    zicsr_enabled: bool,
    r: Result<(), (MachineException, u32)>,
    regs2: Seq<u32>,
    pc2: u32,
) -> bool {
    match decode_inst(w) {
        None => r == Err::<(), (MachineException, u32)>(
            (MachineException::IllegalInstruction, w),
        ) && regs2 == regs && pc2 == pc,
        Some(i) => match pure_step_result(
            w,
            i,
            regs,
            pc,
            next_pc_in,
            c_enabled,
            m_enabled,
            zifence_enabled,
        ) {
            Some(out) => match out {
                Ok(post) => r is Ok && regs2 == post.0 && pc2 == post.1,
                Err(e) => r == Err::<(), (MachineException, u32)>(e) && regs2 == regs && pc2 == pc,
            },
            None => env_step_outcome(
                w,
                i,
                regs,
                pc,
                next_pc_in,
                a_enabled,
                zicsr_enabled,
                r,
                regs2,
                pc2,
            ),
        },
    }
}

/// The outcome of dispatching one fetched instruction word, 16- or 32-bit,
/// from `(regs, pc)`. A compressed fetch behaves exactly as its canonical
/// 32-bit expansion, the only difference being the fall-through program
/// counter two bytes after the fetch instead of four; with the C extension
/// disabled, or for an encoding the C extension does not define, it raises
/// IllegalInstruction with the halfword as the trap value.
pub open spec fn fetched_step_outcome(
    instruction: u32,
    regs: Seq<u32>,
    pc: u32,
    c_enabled: bool,
    m_enabled: bool,
    a_enabled: bool,
    zifence_enabled: bool,
    zicsr_enabled: bool,
    r: Result<(), (MachineException, u32)>,
    regs2: Seq<u32>,
    pc2: u32,
) -> bool {
    if instruction & 3 != 3 {
        let half = instruction & 0xffff;
        if !c_enabled {
            r == Err::<(), (MachineException, u32)>(
                (MachineException::IllegalInstruction, half),
            ) && regs2 == regs && pc2 == pc
        } else {
            match expand_c(half as u16) {
                None => r == Err::<(), (MachineException, u32)>(
                    (MachineException::IllegalInstruction, half),
                ) && regs2 == regs && pc2 == pc,
                Some(e) => step_outcome(
                    e,
                    regs,
                    pc,
                    pc.wrapping_add(2),
                    c_enabled,
                    m_enabled,
                    a_enabled,
                    zifence_enabled,
                    zicsr_enabled,
                    r,
                    regs2,
                    pc2,
                ),
            }
        }
    } else {
        step_outcome(
            instruction,
            regs,
            pc,
            pc.wrapping_add(4),
            c_enabled,
            m_enabled,
            a_enabled,
            zifence_enabled,
            zicsr_enabled,
            r,
            regs2,
            pc2,
        )
    }
}

/// An even value is unchanged by clearing its low bit, and a masked value
/// is even.
proof fn lemma_even_mask(x: u32)
    by (bit_vector)
    ensures
        x & 1 == 0 ==> x & !1u32 == x,
        (x & !1u32) & 1 == 0,
{
}

/// The branch and jump offsets always have a clear low bit.
proof fn lemma_offset_parity(w: u32)
    by (bit_vector)
    ensures
        imm_b_of(w) & 1 == 0,
        imm_j_of(w) & 1 == 0,
{
}

/// The wrapping sum of two even values is even.
proof fn lemma_wrapping_add_even(x: u32, y: u32)
    requires
        x & 1 == 0,
        y & 1 == 0,
    ensures
        x.wrapping_add(y) & 1 == 0,
{
    assert(x % 2 == 0 && y % 2 == 0) by (bit_vector)
        requires
            x & 1 == 0 && y & 1 == 0,
    ;
    let s = x.wrapping_add(y);
    assert(s % 2 == 0);
    assert(s & 1 == 0) by (bit_vector)
        requires
            s % 2 == 0,
    ;
}

impl Cpu {
    /// Execute one decoded 32-bit instruction word against `env`, then
    /// commit the next program counter. `this_pc` is the PC the word was
    /// fetched from and `next_pc_in` the fall-through PC (2 or 4 bytes
    /// later, depending on the fetched encoding's length).
    ///
    /// The outcome is exactly [`step_outcome`]: full functional behaviour
    /// for the register-and-PC instructions, and for the memory, CSR, and
    /// environment-call instructions everything that holds whatever the
    /// environment returned.
    pub fn execute_word<E: ExecutionEnvironment>(
        &mut self,
        env: &mut E,
        w: u32,
        this_pc: u32,
        next_pc_in: u32,
        c_enabled: bool,
        m_enabled: bool,
        a_enabled: bool,
        zifence_enabled: bool,
        zicsr_enabled: bool,
    ) -> (r: Result<(), (MachineException, u32)>)
        requires
            old(self).wf(),
            this_pc == old(self).pc_value(),
            next_pc_in & 1 == 0,
        ensures
            final(self).wf(),
            step_outcome(
                w,
                old(self).regs(),
                this_pc,
                next_pc_in,
                c_enabled,
                m_enabled,
                a_enabled,
                zifence_enabled,
                zicsr_enabled,
                r,
                final(self).regs(),
                final(self).pc_value(),
            ),
            // On an exception the architectural state is untouched, except
            // through an environment call the host owns (ECALL, EBREAK).
            (r is Err && (decode_inst(w) is None || !(decode_inst(w)->Some_0 is Ecall
                || decode_inst(w)->Some_0 is Ebreak))) ==> final(self).regs() == old(self).regs()
                && final(self).pc_value() == old(self).pc_value(),
    {
        let inst = match decode(w) {
            Some(i) => i,
            None => {
                return Err((MachineException::IllegalInstruction, w));
            },
        };
        let mut next_pc = next_pc_in;
        match inst {
            Instruction::Lui { rd, imm } => {
                self.put_register(rd, imm);
                env.account_generic_op();
            },
            Instruction::Auipc { rd, imm } => {
                self.put_register(rd, this_pc.wrapping_add(imm));
                env.account_alu_op();
            },
            Instruction::Jal { rd, imm } => {
                let target = this_pc.wrapping_add(imm);
                if target & 3 != 0 && !c_enabled {
                    return Err((MachineException::MisalignedPC, target));
                }
                self.put_register(rd, next_pc);
                next_pc = target;
                proof {
                    lemma_offset_parity(w);
                    lemma_wrapping_add_even(this_pc, imm);
                }
                env.account_jump_op();
            },
            Instruction::Jalr { rd, rs1, imm } => {
                let base = self.get_register(rs1);
                let target = base.wrapping_add(imm) & !1;
                if target & 3 != 0 && !c_enabled {
                    return Err((MachineException::MisalignedPC, target));
                }
                self.put_register(rd, next_pc);
                next_pc = target;
                proof {
                    lemma_even_mask(base.wrapping_add(imm));
                }
                env.account_jump_op();
            },
            Instruction::Branch { funct3, rs1, rs2, imm } => {
                let a = self.get_register(rs1);
                let b = self.get_register(rs2);
                let taken = if funct3 == 0 {
                    a == b
                } else if funct3 == 1 {
                    a != b
                } else if funct3 == 4 {
                    signed_less_than(a, b)
                } else if funct3 == 5 {
                    !signed_less_than(a, b)
                } else if funct3 == 6 {
                    a < b
                } else {
                    a >= b
                };
                if taken {
                    let target = this_pc.wrapping_add(imm);
                    if target & 3 != 0 && !c_enabled {
                        return Err((MachineException::MisalignedPC, target));
                    }
                    next_pc = target;
                    proof {
                        lemma_offset_parity(w);
                        lemma_wrapping_add_even(this_pc, imm);
                    }
                }
                env.account_branch_op(taken, imm & 0x8000_0000 == 0);
            },
            Instruction::Load { funct3, rd, rs1, imm } => {
                let base = self.get_register(rs1);
                let address = base.wrapping_add(imm);
                let ghost mut raw: u32 = 0;
                let result: u32 = if funct3 == 0 {
                    match env.read_byte(address) {
                        Ok(b) => {
                            proof {
                                raw = b as u32;
                            }
                            sext8(b)
                        },
                        Err(e) => {
                            return Err((load_exception(e), address));
                        },
                    }
                } else if funct3 == 1 {
                    match env.read_half(address) {
                        Ok(h) => {
                            proof {
                                raw = h as u32;
                            }
                            sext16(h)
                        },
                        Err(e) => {
                            return Err((load_exception(e), address));
                        },
                    }
                } else if funct3 == 2 {
                    match env.read_word(address, 0xffff_ffff) {
                        Ok(v) => {
                            proof {
                                raw = v;
                            }
                            v
                        },
                        Err(e) => {
                            return Err((load_exception(e), address));
                        },
                    }
                } else if funct3 == 4 {
                    match env.read_byte(address) {
                        Ok(b) => {
                            proof {
                                raw = b as u32;
                            }
                            b as u32
                        },
                        Err(e) => {
                            return Err((load_exception(e), address));
                        },
                    }
                } else {
                    match env.read_half(address) {
                        Ok(h) => {
                            proof {
                                raw = h as u32;
                            }
                            h as u32
                        },
                        Err(e) => {
                            return Err((load_exception(e), address));
                        },
                    }
                };
                self.put_register(rd, result);
                proof {
                    assert(result == load_result(funct3, raw));
                    assert(self.regs() == reg_write(old(self).regs(), rd, load_result(
                        funct3,
                        raw,
                    )));
                }
                env.account_generic_op();
                env.account_memory_load(address);
            },
            Instruction::Store { funct3, rs1, rs2, imm } => {
                let base = self.get_register(rs1);
                let address = base.wrapping_add(imm);
                let value = self.get_register(rs2);
                let outcome = if funct3 == 0 {
                    env.write_byte(address, value as u8)
                } else if funct3 == 1 {
                    env.write_half(address, value as u16)
                } else {
                    env.write_word(address, value, 0xffff_ffff)
                };
                match outcome {
                    Ok(()) => {},
                    Err(e) => {
                        return Err((store_exception(e), address));
                    },
                }
                env.account_generic_op();
                env.account_memory_store(address);
            },
            Instruction::OpImm { funct3, rd, rs1, imm } => {
                let alt = funct3 == 5 && imm & 0x400 != 0;
                let a = self.get_register(rs1);
                let v = match alu_op(alt, funct3, a, imm) {
                    Ok(v) => v,
                    Err(e) => {
                        return Err((e, w));
                    },
                };
                self.put_register(rd, v);
                env.account_alu_op();
            },
            Instruction::Op { funct7, funct3, rd, rs1, rs2 } => {
                let a = self.get_register(rs1);
                let b = self.get_register(rs2);
                if funct7 == 1 {
                    if !m_enabled {
                        return Err((MachineException::IllegalInstruction, w));
                    }
                    let v = m_op(funct3, a, b);
                    self.put_register(rd, v);
                    if funct3 < 4 {
                        env.account_mul_op();
                    } else {
                        env.account_div_op();
                    }
                } else {
                    let v = match alu_op(funct7 == 0x20, funct3, a, b) {
                        Ok(v) => v,
                        Err(e) => {
                            return Err((e, w));
                        },
                    };
                    self.put_register(rd, v);
                    env.account_alu_op();
                }
            },
            Instruction::Fence { rd, rs1, imm } => {
                // No caches or reordering are modelled: FENCE is a no-op.
                env.account_generic_op();
            },
            Instruction::FenceI { rd, rs1, imm } => {
                if !zifence_enabled {
                    return Err((MachineException::IllegalInstruction, w));
                }
                // No instruction cache is modelled: FENCE.I is a no-op.
                env.account_generic_op();
            },
            Instruction::Ecall => {
                match env.perform_ecall(self) {
                    Ok(()) => {},
                    Err(p) => {
                        return Err(p);
                    },
                }
                env.account_generic_op();
            },
            Instruction::Ebreak => {
                match env.perform_ebreak(self) {
                    Ok(()) => {},
                    Err(p) => {
                        return Err(p);
                    },
                }
                env.account_generic_op();
            },
            Instruction::Csr { funct3, rd, rs1, csr } => {
                if !zicsr_enabled {
                    return Err((MachineException::IllegalInstruction, w));
                }
                let is_imm = funct3 & 4 != 0;
                let op = funct3 & 3;
                let operand = if is_imm {
                    rs1
                } else {
                    self.get_register(rs1)
                };
                let will_write = op == 1 || rs1 != 0;
                if will_write && (csr >> 10) == 3 {
                    // Writes to read-only CSR numbers fault before any
                    // side effect reaches the environment.
                    return Err((MachineException::IllegalInstruction, w));
                }
                let old_value = if op == 1 && rd == 0 {
                    // CSRRW with rd = x0 must not read the CSR.
                    0
                } else {
                    match env.read_csr(csr) {
                        Ok(v) => v,
                        Err(e) => {
                            return Err((e, w));
                        },
                    }
                };
                let new_value = if op == 1 {
                    operand
                } else if op == 2 {
                    old_value | operand
                } else {
                    old_value & !operand
                };
                if will_write {
                    match env.write_csr(csr, new_value) {
                        Ok(()) => {},
                        Err(e) => {
                            return Err((e, w));
                        },
                    }
                }
                self.put_register(rd, old_value);
                proof {
                    assert(self.regs() == reg_write(old(self).regs(), rd, old_value));
                }
                env.account_generic_op();
            },
            Instruction::Amo { funct5, aqrl, rd, rs1, rs2 } => {
                if !a_enabled {
                    return Err((MachineException::IllegalInstruction, w));
                }
                let address = self.get_register(rs1);
                if funct5 == 2 {
                    // LR.W
                    if address & 3 != 0 {
                        return Err((MachineException::MisalignedLoad, address));
                    }
                    let v = match env.load_reserved_word(address) {
                        Ok(v) => v,
                        Err(e) => {
                            return Err((load_exception(e), address));
                        },
                    };
                    self.put_register(rd, v);
                    proof {
                        assert(self.regs() == reg_write(old(self).regs(), rd, v));
                    }
                    env.account_amo_op();
                    env.account_memory_load(address);
                } else if funct5 == 3 {
                    // SC.W
                    if address & 3 != 0 {
                        return Err((MachineException::MisalignedStore, address));
                    }
                    let data = self.get_register(rs2);
                    let stored = match env.store_reserved_word(address, data) {
                        Ok(f) => f,
                        Err(e) => {
                            return Err((store_exception(e), address));
                        },
                    };
                    self.put_register(rd, if stored { 0 } else { 1 });
                    env.account_amo_op();
                    if stored {
                        env.account_memory_store(address);
                    }
                } else {
                    if address & 3 != 0 {
                        return Err((MachineException::MisalignedStore, address));
                    }
                    let src = self.get_register(rs2);
                    let old_value = match env.read_word(address, 0xffff_ffff) {
                        Ok(v) => v,
                        Err(e) => {
                            return Err((load_exception(e), address));
                        },
                    };
                    let new_value = amo_compute(funct5, old_value, src);
                    match env.write_word(address, new_value, 0xffff_ffff) {
                        Ok(()) => {},
                        Err(e) => {
                            return Err((store_exception(e), address));
                        },
                    }
                    self.put_register(rd, old_value);
                    proof {
                        assert(self.regs() == reg_write(old(self).regs(), rd, old_value));
                    }
                    env.account_amo_op();
                    env.account_memory_load(address);
                    env.account_memory_store(address);
                }
            },
        }
        proof {
            lemma_even_mask(next_pc);
        }
        self.put_pc(next_pc);
        Ok(())
    }

    /// Dispatch one fetched instruction word: gate and expand a compressed
    /// encoding, account the fetch, execute, and commit the next program
    /// counter.
    ///
    /// The outcome is exactly [`fetched_step_outcome`]: in particular, a
    /// compressed fetch with the C extension enabled has the same outcome
    /// as its canonical 32-bit expansion executed with the fall-through
    /// program counter two bytes after the fetch.
    pub fn execute_fetched<E: ExecutionEnvironment>(
        &mut self,
        env: &mut E,
        instruction: u32,
        this_pc: u32,
        c_enabled: bool,
        m_enabled: bool,
        a_enabled: bool,
        zifence_enabled: bool,
        zicsr_enabled: bool,
    ) -> (r: Result<(), (MachineException, u32)>)
        requires
            old(self).wf(),
            this_pc == old(self).pc_value(),
        ensures
            final(self).wf(),
            fetched_step_outcome(
                instruction,
                old(self).regs(),
                this_pc,
                c_enabled,
                m_enabled,
                a_enabled,
                zifence_enabled,
                zicsr_enabled,
                r,
                final(self).regs(),
                final(self).pc_value(),
            ),
    {
        proof {
            assert(2u32 & 1 == 0 && 4u32 & 1 == 0) by (bit_vector);
        }
        if instruction & 3 != 3 {
            // A compressed (16-bit) encoding: expand it to its canonical
            // 32-bit form and execute that, advancing the PC by two.
            let half = instruction & 0xffff;
            if !c_enabled {
                return Err((MachineException::IllegalInstruction, half));
            }
            let expanded = match expand_compressed(half as u16) {
                Some(w) => w,
                None => {
                    return Err((MachineException::IllegalInstruction, half));
                },
            };
            env.account_ifetch(this_pc);
            proof {
                lemma_wrapping_add_even(this_pc, 2);
            }
            let next_pc = this_pc.wrapping_add(2);
            return self.execute_word(
                env,
                expanded,
                this_pc,
                next_pc,
                c_enabled,
                m_enabled,
                a_enabled,
                zifence_enabled,
                zicsr_enabled,
            );
        }
        env.account_ifetch(this_pc);
        proof {
            lemma_wrapping_add_even(this_pc, 4);
        }
        let next_pc = this_pc.wrapping_add(4);
        self.execute_word(
            env,
            instruction,
            this_pc,
            next_pc,
            c_enabled,
            m_enabled,
            a_enabled,
            zifence_enabled,
            zicsr_enabled,
        )
    }

    /// Fetch one instruction word and dispatch it.
    fn internal_step<E: ExecutionEnvironment>(&mut self, env: &mut E) -> (r: Result<
        (),
        (MachineException, u32),
    >)
        requires
            old(self).wf(),
        ensures
            final(self).wf(),
    {
        let this_pc = self.get_pc();
        let instruction = match env.read_instruction(this_pc) {
            Ok(w) => w,
            Err(e) => {
                return Err((ifetch_exception(e), this_pc));
            },
        };
        let c_enabled = env.support_c() && env.enable_c();
        let m_enabled = env.support_m() && env.enable_m();
        let a_enabled = env.support_a() && env.enable_a();
        let zifence_enabled = env.enable_zifence();
        let zicsr_enabled = env.enable_zicsr();
        self.execute_fetched(
            env,
            instruction,
            this_pc,
            c_enabled,
            m_enabled,
            a_enabled,
            zifence_enabled,
            zicsr_enabled,
        )
    }

    /// Perform one instruction step against `env`: fetch the word at the
    /// program counter, ask the environment which extensions are enabled,
    /// and dispatch through [`Cpu::execute_fetched`], whose contract
    /// ([`fetched_step_outcome`]) fixes the outcome for every fetched word.
    ///
    /// This function's own contract stops at well-formedness, because
    /// everything else depends on values only the environment knows: the
    /// fetched word, the enable flags, and — for ECALL and EBREAK — a CPU
    /// handed to the host. A caller who knows what the fetch returns
    /// reasons through [`Cpu::execute_fetched`]; on a fetch failure the
    /// result is the mapped cause with the program counter as the trap
    /// value and the state untouched.
    pub fn step<E: ExecutionEnvironment>(&mut self, env: &mut E) -> (r: Result<
        (),
        (MachineException, u32),
    >)
        requires
            old(self).wf(),
        ensures
            final(self).wf(),
    {
        self.internal_step(env)
    }
}

} // verus!
