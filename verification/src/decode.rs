//! Instruction word classification: field extraction, decoding into a
//! structured form, and the inverse encoding.

use vstd::prelude::*;

verus! {

/// `funct3` field: bits 14..12.
pub open spec fn funct3_of(w: u32) -> u32 {
    (w >> 12) & 0x7
}

/// `funct7` field: bits 31..25.
pub open spec fn funct7_of(w: u32) -> u32 {
    (w >> 25) & 0x7f
}

/// `rd` field: bits 11..7.
pub open spec fn rd_of(w: u32) -> u32 {
    (w >> 7) & 0x1f
}

/// `rs1` field: bits 19..15.
pub open spec fn rs1_of(w: u32) -> u32 {
    (w >> 15) & 0x1f
}

/// `rs2` field: bits 24..20.
pub open spec fn rs2_of(w: u32) -> u32 {
    (w >> 20) & 0x1f
}

/// I-type immediate: bits 31..20, sign-extended.
pub open spec fn imm_i_of(w: u32) -> u32 {
    if w & 0x8000_0000 != 0 {
        (w >> 20) | 0xffff_f000
    } else {
        w >> 20
    }
}

/// S-type immediate: bits 31..25 and 11..7, sign-extended.
pub open spec fn imm_s_of(w: u32) -> u32 {
    let low = ((w >> 25) << 5) | ((w >> 7) & 0x1f);
    if w & 0x8000_0000 != 0 {
        low | 0xffff_f000
    } else {
        low
    }
}

/// B-type immediate: a 13-bit branch offset (bit 0 always zero),
/// sign-extended.
pub open spec fn imm_b_of(w: u32) -> u32 {
    let low = (((w >> 8) & 0xf) << 1) | (((w >> 25) & 0x3f) << 5) | (((w >> 7) & 0x1) << 11);
    if w & 0x8000_0000 != 0 {
        low | 0xffff_f000
    } else {
        low
    }
}

/// U-type immediate: bits 31..12, low 12 bits zero.
pub open spec fn imm_u_of(w: u32) -> u32 {
    w & 0xffff_f000
}

/// J-type immediate: a 21-bit jump offset (bit 0 always zero),
/// sign-extended.
pub open spec fn imm_j_of(w: u32) -> u32 {
    let low = (((w >> 21) & 0x3ff) << 1) | (((w >> 20) & 0x1) << 11) | (((w >> 12) & 0xff) << 12);
    if w & 0x8000_0000 != 0 {
        low | 0xfff0_0000
    } else {
        low
    }
}

/// One decoded 32-bit instruction. Each variant keeps every bit of its
/// encoding, so that [`encode`] can reproduce the original word exactly.
///
/// Immediates are stored sign-extended to 32 bits. Register numbers are in
/// `0..32` and `funct` fields are in their natural ranges whenever the value
/// was produced by [`decode_inst`].
#[derive(Clone, Copy, Debug, PartialEq, Eq, Structural)]
pub enum Instruction {
    /// LUI: load upper immediate.
    Lui { rd: u32, imm: u32 },
    /// AUIPC: add upper immediate to PC.
    Auipc { rd: u32, imm: u32 },
    /// JAL: jump and link.
    Jal { rd: u32, imm: u32 },
    /// JALR: jump and link register.
    Jalr { rd: u32, rs1: u32, imm: u32 },
    /// Conditional branch; `funct3` selects the comparison.
    Branch { funct3: u32, rs1: u32, rs2: u32, imm: u32 },
    /// Memory load; `funct3` selects width and sign extension.
    Load { funct3: u32, rd: u32, rs1: u32, imm: u32 },
    /// Memory store; `funct3` selects width.
    Store { funct3: u32, rs1: u32, rs2: u32, imm: u32 },
    /// Register-immediate ALU operation.
    OpImm { funct3: u32, rd: u32, rs1: u32, imm: u32 },
    /// Register-register operation; `funct7` selects the base, alternate,
    /// or multiply/divide group.
    Op { funct7: u32, funct3: u32, rd: u32, rs1: u32, rs2: u32 },
    /// FENCE: accepted and ignored. The immediate keeps fm/pred/succ.
    Fence { rd: u32, rs1: u32, imm: u32 },
    /// FENCE.I: instruction-cache synchronization.
    FenceI { rd: u32, rs1: u32, imm: u32 },
    /// ECALL: environment call.
    Ecall,
    /// EBREAK: breakpoint.
    Ebreak,
    /// CSR read-modify-write; `funct3` selects the operation and form.
    Csr { funct3: u32, rd: u32, rs1: u32, csr: u32 },
    /// Word-sized atomic; `funct5` selects the operation, `aqrl` keeps the
    /// acquire/release bits.
    Amo { funct5: u32, aqrl: u32, rd: u32, rs1: u32, rs2: u32 },
}

/// Whether `f5` is one of the defined word-sized atomic operations:
/// AMOADD, AMOSWAP, LR, SC, AMOXOR, AMOOR, AMOAND, AMOMIN, AMOMAX,
/// AMOMINU, AMOMAXU.
pub open spec fn amo_funct5_defined(f5: u32) -> bool {
    f5 == 0 || f5 == 1 || f5 == 2 || f5 == 3 || f5 == 4 || f5 == 8 || f5 == 12 || f5 == 16
        || f5 == 20 || f5 == 24 || f5 == 28
}

/// Decode a full 32-bit instruction word. `None` means the word is not a
/// defined encoding of the integer subset this core executes and raises
/// IllegalInstruction. Floating-point opcodes decode to `None` because this
/// core is built with a float width of zero.
pub open spec fn decode_inst(w: u32) -> Option<Instruction> {
    if w & 3 != 3 {
        None
    } else {
        let opcode = w & 0x7f;
        let funct3 = funct3_of(w);
        let funct7 = funct7_of(w);
        let rd = rd_of(w);
        let rs1 = rs1_of(w);
        let rs2 = rs2_of(w);
        if opcode == 0x37 {
            Some(Instruction::Lui { rd, imm: imm_u_of(w) })
        } else if opcode == 0x17 {
            Some(Instruction::Auipc { rd, imm: imm_u_of(w) })
        } else if opcode == 0x6f {
            Some(Instruction::Jal { rd, imm: imm_j_of(w) })
        } else if opcode == 0x67 {
            if funct3 == 0 {
                Some(Instruction::Jalr { rd, rs1, imm: imm_i_of(w) })
            } else {
                None
            }
        } else if opcode == 0x63 {
            if funct3 == 2 || funct3 == 3 {
                None
            } else {
                Some(Instruction::Branch { funct3, rs1, rs2, imm: imm_b_of(w) })
            }
        } else if opcode == 0x03 {
            if funct3 == 0 || funct3 == 1 || funct3 == 2 || funct3 == 4 || funct3 == 5 {
                Some(Instruction::Load { funct3, rd, rs1, imm: imm_i_of(w) })
            } else {
                None
            }
        } else if opcode == 0x23 {
            if funct3 == 0 || funct3 == 1 || funct3 == 2 {
                Some(Instruction::Store { funct3, rs1, rs2, imm: imm_s_of(w) })
            } else {
                None
            }
        } else if opcode == 0x13 {
            if funct3 == 1 {
                if funct7 == 0 {
                    Some(Instruction::OpImm { funct3, rd, rs1, imm: imm_i_of(w) })
                } else {
                    None
                }
            } else if funct3 == 5 {
                if funct7 == 0 || funct7 == 0x20 {
                    Some(Instruction::OpImm { funct3, rd, rs1, imm: imm_i_of(w) })
                } else {
                    None
                }
            } else {
                Some(Instruction::OpImm { funct3, rd, rs1, imm: imm_i_of(w) })
            }
        } else if opcode == 0x33 {
            if funct7 == 0 || funct7 == 1 {
                Some(Instruction::Op { funct7, funct3, rd, rs1, rs2 })
            } else if funct7 == 0x20 {
                if funct3 == 0 || funct3 == 5 {
                    Some(Instruction::Op { funct7, funct3, rd, rs1, rs2 })
                } else {
                    None
                }
            } else {
                None
            }
        } else if opcode == 0x0f {
            if funct3 == 0 {
                Some(Instruction::Fence { rd, rs1, imm: imm_i_of(w) })
            } else if funct3 == 1 {
                Some(Instruction::FenceI { rd, rs1, imm: imm_i_of(w) })
            } else {
                None
            }
        } else if opcode == 0x73 {
            if funct3 == 0 {
                if w == 0x0000_0073 {
                    Some(Instruction::Ecall)
                } else if w == 0x0010_0073 {
                    Some(Instruction::Ebreak)
                } else {
                    None
                }
            } else if funct3 == 4 {
                None
            } else {
                Some(Instruction::Csr { funct3, rd, rs1, csr: w >> 20 })
            }
        } else if opcode == 0x2f {
            let funct5 = (w >> 27) & 0x1f;
            let aqrl = (w >> 25) & 0x3;
            if funct3 == 2 && amo_funct5_defined(funct5) && (funct5 != 2 || rs2 == 0) {
                Some(Instruction::Amo { funct5, aqrl, rd, rs1, rs2 })
            } else {
                None
            }
        } else {
            None
        }
    }
}

/// Reassemble the encoding bits of a J-type immediate.
pub open spec fn enc_j(imm: u32) -> u32 {
    (((imm >> 1) & 0x3ff) << 21) | (((imm >> 11) & 0x1) << 20) | (((imm >> 12) & 0xff) << 12) | (
    ((imm >> 20) & 0x1) << 31)
}

/// Reassemble the encoding bits of a B-type immediate.
pub open spec fn enc_b(imm: u32) -> u32 {
    (((imm >> 1) & 0xf) << 8) | (((imm >> 5) & 0x3f) << 25) | (((imm >> 11) & 0x1) << 7) | (((imm
        >> 12) & 0x1) << 31)
}

/// Encode a decoded instruction back into its 32-bit word. For any value
/// produced by [`decode_inst`] this is the exact inverse; see
/// [`lemma_decode_encode_round_trip`].
pub open spec fn encode(i: Instruction) -> u32 {
    match i {
        Instruction::Lui { rd, imm } => (imm & 0xffff_f000) | ((rd & 0x1f) << 7) | 0x37,
        Instruction::Auipc { rd, imm } => (imm & 0xffff_f000) | ((rd & 0x1f) << 7) | 0x17,
        Instruction::Jal { rd, imm } => enc_j(imm) | ((rd & 0x1f) << 7) | 0x6f,
        Instruction::Jalr { rd, rs1, imm } => ((imm & 0xfff) << 20) | ((rs1 & 0x1f) << 15) | ((rd
            & 0x1f) << 7) | 0x67,
        Instruction::Branch { funct3, rs1, rs2, imm } => enc_b(imm) | ((rs2 & 0x1f) << 20) | ((rs1
            & 0x1f) << 15) | ((funct3 & 0x7) << 12) | 0x63,
        Instruction::Load { funct3, rd, rs1, imm } => ((imm & 0xfff) << 20) | ((rs1 & 0x1f) << 15)
            | ((funct3 & 0x7) << 12) | ((rd & 0x1f) << 7) | 0x03,
        Instruction::Store { funct3, rs1, rs2, imm } => (((imm >> 5) & 0x7f) << 25) | ((imm & 0x1f)
            << 7) | ((rs2 & 0x1f) << 20) | ((rs1 & 0x1f) << 15) | ((funct3 & 0x7) << 12) | 0x23,
        Instruction::OpImm { funct3, rd, rs1, imm } => ((imm & 0xfff) << 20) | ((rs1 & 0x1f) << 15)
            | ((funct3 & 0x7) << 12) | ((rd & 0x1f) << 7) | 0x13,
        Instruction::Op { funct7, funct3, rd, rs1, rs2 } => ((funct7 & 0x7f) << 25) | ((rs2 & 0x1f)
            << 20) | ((rs1 & 0x1f) << 15) | ((funct3 & 0x7) << 12) | ((rd & 0x1f) << 7) | 0x33,
        Instruction::Fence { rd, rs1, imm } => ((imm & 0xfff) << 20) | ((rs1 & 0x1f) << 15) | ((rd
            & 0x1f) << 7) | 0x0f,
        Instruction::FenceI { rd, rs1, imm } => ((imm & 0xfff) << 20) | ((rs1 & 0x1f) << 15) | (0x1u32
            << 12) | ((rd & 0x1f) << 7) | 0x0f,
        Instruction::Ecall => 0x0000_0073,
        Instruction::Ebreak => 0x0010_0073,
        Instruction::Csr { funct3, rd, rs1, csr } => ((csr & 0xfff) << 20) | ((rs1 & 0x1f) << 15)
            | ((funct3 & 0x7) << 12) | ((rd & 0x1f) << 7) | 0x73,
        Instruction::Amo { funct5, aqrl, rd, rs1, rs2 } => ((funct5 & 0x1f) << 27) | ((aqrl & 0x3)
            << 25) | ((rs2 & 0x1f) << 20) | ((rs1 & 0x1f) << 15) | (0x2u32 << 12) | ((rd & 0x1f) << 7)
            | 0x2f,
    }
}

/// Every word that decodes successfully re-encodes to the identical word:
/// the structured form loses no encoding bit.
pub proof fn lemma_decode_encode_round_trip(w: u32)
    requires
        decode_inst(w) is Some,
    ensures
        encode(decode_inst(w)->Some_0) == w,
{
    let opcode = w & 0x7f;
    let funct3 = funct3_of(w);
    let funct7 = funct7_of(w);
    let rd = rd_of(w);
    let rs1 = rs1_of(w);
    let rs2 = rs2_of(w);
    if w & 3 == 3 {
        if opcode == 0x37 {
            assert((imm_u_of(w) & 0xffff_f000) | ((rd_of(w) & 0x1f) << 7) | 0x37u32 == w)
                by (bit_vector)
                requires
                    w & 0x7f == 0x37u32,
            ;
        } else if opcode == 0x17 {
            assert((imm_u_of(w) & 0xffff_f000) | ((rd_of(w) & 0x1f) << 7) | 0x17u32 == w)
                by (bit_vector)
                requires
                    w & 0x7f == 0x17u32,
            ;
        } else if opcode == 0x6f {
            assert(enc_j(imm_j_of(w)) | ((rd_of(w) & 0x1f) << 7) | 0x6fu32 == w) by (bit_vector)
                requires
                    w & 0x7f == 0x6fu32,
            ;
        } else if opcode == 0x67 {
            assert(((imm_i_of(w) & 0xfff) << 20) | ((rs1_of(w) & 0x1f) << 15) | ((rd_of(w) & 0x1f)
                << 7) | 0x67u32 == w) by (bit_vector)
                requires
                    w & 0x7f == 0x67u32 && (w >> 12) & 0x7 == 0u32,
            ;
        } else if opcode == 0x63 {
            assert(enc_b(imm_b_of(w)) | ((rs2_of(w) & 0x1f) << 20) | ((rs1_of(w) & 0x1f) << 15) | (
            (funct3_of(w) & 0x7) << 12) | 0x63u32 == w) by (bit_vector)
                requires
                    w & 0x7f == 0x63u32,
            ;
        } else if opcode == 0x03 {
            assert(((imm_i_of(w) & 0xfff) << 20) | ((rs1_of(w) & 0x1f) << 15) | ((funct3_of(w)
                & 0x7) << 12) | ((rd_of(w) & 0x1f) << 7) | 0x03u32 == w) by (bit_vector)
                requires
                    w & 0x7f == 0x03u32,
            ;
        } else if opcode == 0x23 {
            assert((((imm_s_of(w) >> 5) & 0x7f) << 25) | ((imm_s_of(w) & 0x1f) << 7) | ((rs2_of(w)
                & 0x1f) << 20) | ((rs1_of(w) & 0x1f) << 15) | ((funct3_of(w) & 0x7) << 12)
                | 0x23u32 == w) by (bit_vector)
                requires
                    w & 0x7f == 0x23u32,
            ;
        } else if opcode == 0x13 {
            assert(((imm_i_of(w) & 0xfff) << 20) | ((rs1_of(w) & 0x1f) << 15) | ((funct3_of(w)
                & 0x7) << 12) | ((rd_of(w) & 0x1f) << 7) | 0x13u32 == w) by (bit_vector)
                requires
                    w & 0x7f == 0x13u32,
            ;
        } else if opcode == 0x33 {
            assert(((funct7_of(w) & 0x7f) << 25) | ((rs2_of(w) & 0x1f) << 20) | ((rs1_of(w) & 0x1f)
                << 15) | ((funct3_of(w) & 0x7) << 12) | ((rd_of(w) & 0x1f) << 7) | 0x33u32 == w)
                by (bit_vector)
                requires
                    w & 0x7f == 0x33u32,
            ;
        } else if opcode == 0x0f {
            if funct3 == 0 {
                assert(((imm_i_of(w) & 0xfff) << 20) | ((rs1_of(w) & 0x1f) << 15) | ((rd_of(w)
                    & 0x1f) << 7) | 0x0fu32 == w) by (bit_vector)
                    requires
                        w & 0x7f == 0x0fu32 && (w >> 12) & 0x7 == 0u32,
                ;
            } else if funct3 == 1 {
                assert(((imm_i_of(w) & 0xfff) << 20) | ((rs1_of(w) & 0x1f) << 15) | (0x1u32 << 12)
                    | ((rd_of(w) & 0x1f) << 7) | 0x0fu32 == w) by (bit_vector)
                    requires
                        w & 0x7f == 0x0fu32 && (w >> 12) & 0x7 == 1u32,
                ;
            }
        } else if opcode == 0x73 {
            if funct3 != 0 && funct3 != 4 {
                assert((((w >> 20) & 0xfff) << 20) | ((rs1_of(w) & 0x1f) << 15) | ((funct3_of(w)
                    & 0x7) << 12) | ((rd_of(w) & 0x1f) << 7) | 0x73u32 == w) by (bit_vector)
                    requires
                        w & 0x7f == 0x73u32 && (w >> 12) & 0x7 != 0u32,
                ;
            }
        } else if opcode == 0x2f {
            assert(((((w >> 27) & 0x1f) & 0x1f) << 27) | ((((w >> 25) & 0x3) & 0x3) << 25) | ((
            rs2_of(w) & 0x1f) << 20) | ((rs1_of(w) & 0x1f) << 15) | (0x2u32 << 12) | ((rd_of(w)
                & 0x1f) << 7) | 0x2fu32 == w) by (bit_vector)
                requires
                    w & 0x7f == 0x2fu32 && (w >> 12) & 0x7 == 2u32,
            ;
        }
    }
}

/// Register numbers, `funct` fields, and CSR numbers of a decoded
/// instruction are within their encoding ranges.
pub open spec fn fields_bounded(i: Instruction) -> bool {
    match i {
        Instruction::Lui { rd, imm } => rd < 32,
        Instruction::Auipc { rd, imm } => rd < 32,
        Instruction::Jal { rd, imm } => rd < 32,
        Instruction::Jalr { rd, rs1, imm } => rd < 32 && rs1 < 32,
        Instruction::Branch { funct3, rs1, rs2, imm } => funct3 < 8 && rs1 < 32 && rs2 < 32,
        Instruction::Load { funct3, rd, rs1, imm } => funct3 < 8 && rd < 32 && rs1 < 32,
        Instruction::Store { funct3, rs1, rs2, imm } => funct3 < 8 && rs1 < 32 && rs2 < 32,
        Instruction::OpImm { funct3, rd, rs1, imm } => funct3 < 8 && rd < 32 && rs1 < 32,
        Instruction::Op { funct7, funct3, rd, rs1, rs2 } => funct7 < 128 && funct3 < 8 && rd < 32
            && rs1 < 32 && rs2 < 32,
        Instruction::Fence { rd, rs1, imm } => rd < 32 && rs1 < 32,
        Instruction::FenceI { rd, rs1, imm } => rd < 32 && rs1 < 32,
        Instruction::Ecall => true,
        Instruction::Ebreak => true,
        Instruction::Csr { funct3, rd, rs1, csr } => funct3 < 8 && rd < 32 && rs1 < 32 && csr
            < 4096,
        Instruction::Amo { funct5, aqrl, rd, rs1, rs2 } => funct5 < 32 && aqrl < 4 && rd < 32
            && rs1 < 32 && rs2 < 32,
    }
}

/// Decode a 32-bit instruction word into its structured form, or report
/// that it is not a defined encoding.
pub fn decode(w: u32) -> (r: Option<Instruction>)
    ensures
        r == decode_inst(w),
        r matches Some(i) ==> fields_bounded(i),
{
    if w & 3 != 3 {
        return None;
    }
    proof {
        assert((w >> 12) & 0x7 < 8 && (w >> 25) & 0x7f < 128 && (w >> 7) & 0x1f < 32 && (w >> 15)
            & 0x1f < 32 && (w >> 20) & 0x1f < 32 && (w >> 27) & 0x1f < 32 && (w >> 25) & 0x3 < 4
            && w >> 20 < 4096) by (bit_vector);
    }
    let opcode = w & 0x7f;
    let funct3 = (w >> 12) & 0x7;
    let funct7 = (w >> 25) & 0x7f;
    let rd = (w >> 7) & 0x1f;
    let rs1 = (w >> 15) & 0x1f;
    let rs2 = (w >> 20) & 0x1f;
    if opcode == 0x37 {
        Some(Instruction::Lui { rd, imm: w & 0xffff_f000 })
    } else if opcode == 0x17 {
        Some(Instruction::Auipc { rd, imm: w & 0xffff_f000 })
    } else if opcode == 0x6f {
        Some(Instruction::Jal { rd, imm: imm_j(w) })
    } else if opcode == 0x67 {
        if funct3 == 0 {
            Some(Instruction::Jalr { rd, rs1, imm: imm_i(w) })
        } else {
            None
        }
    } else if opcode == 0x63 {
        if funct3 == 2 || funct3 == 3 {
            None
        } else {
            Some(Instruction::Branch { funct3, rs1, rs2, imm: imm_b(w) })
        }
    } else if opcode == 0x03 {
        if funct3 == 0 || funct3 == 1 || funct3 == 2 || funct3 == 4 || funct3 == 5 {
            Some(Instruction::Load { funct3, rd, rs1, imm: imm_i(w) })
        } else {
            None
        }
    } else if opcode == 0x23 {
        if funct3 == 0 || funct3 == 1 || funct3 == 2 {
            Some(Instruction::Store { funct3, rs1, rs2, imm: imm_s(w) })
        } else {
            None
        }
    } else if opcode == 0x13 {
        if funct3 == 1 {
            if funct7 == 0 {
                Some(Instruction::OpImm { funct3, rd, rs1, imm: imm_i(w) })
            } else {
                None
            }
        } else if funct3 == 5 {
            if funct7 == 0 || funct7 == 0x20 {
                Some(Instruction::OpImm { funct3, rd, rs1, imm: imm_i(w) })
            } else {
                None
            }
        } else {
            Some(Instruction::OpImm { funct3, rd, rs1, imm: imm_i(w) })
        }
    } else if opcode == 0x33 {
        if funct7 == 0 || funct7 == 1 {
            Some(Instruction::Op { funct7, funct3, rd, rs1, rs2 })
        } else if funct7 == 0x20 {
            if funct3 == 0 || funct3 == 5 {
                Some(Instruction::Op { funct7, funct3, rd, rs1, rs2 })
            } else {
                None
            }
        } else {
            None
        }
    } else if opcode == 0x0f {
        if funct3 == 0 {
            Some(Instruction::Fence { rd, rs1, imm: imm_i(w) })
        } else if funct3 == 1 {
            Some(Instruction::FenceI { rd, rs1, imm: imm_i(w) })
        } else {
            None
        }
    } else if opcode == 0x73 {
        if funct3 == 0 {
            if w == 0x0000_0073 {
                Some(Instruction::Ecall)
            } else if w == 0x0010_0073 {
                Some(Instruction::Ebreak)
            } else {
                None
            }
        } else if funct3 == 4 {
            None
        } else {
            Some(Instruction::Csr { funct3, rd, rs1, csr: w >> 20 })
        }
    } else if opcode == 0x2f {
        let funct5 = (w >> 27) & 0x1f;
        let aqrl = (w >> 25) & 0x3;
        let defined = funct5 == 0 || funct5 == 1 || funct5 == 2 || funct5 == 3 || funct5 == 4
            || funct5 == 8 || funct5 == 12 || funct5 == 16 || funct5 == 20 || funct5 == 24
            || funct5 == 28;
        if funct3 == 2 && defined && (funct5 != 2 || rs2 == 0) {
            Some(Instruction::Amo { funct5, aqrl, rd, rs1, rs2 })
        } else {
            None
        }
    } else {
        None
    }
}

/// Encode a decoded instruction back into its 32-bit word. For values
/// produced by [`decode`] this inverts the decoding exactly.
pub fn encode_instruction(i: Instruction) -> (r: u32)
    ensures
        r == encode(i),
{
    match i {
        Instruction::Lui { rd, imm } => (imm & 0xffff_f000) | ((rd & 0x1f) << 7) | 0x37,
        Instruction::Auipc { rd, imm } => (imm & 0xffff_f000) | ((rd & 0x1f) << 7) | 0x17,
        Instruction::Jal { rd, imm } => {
            let e = (((imm >> 1) & 0x3ff) << 21) | (((imm >> 11) & 0x1) << 20) | (((imm >> 12)
                & 0xff) << 12) | (((imm >> 20) & 0x1) << 31);
            e | ((rd & 0x1f) << 7) | 0x6f
        },
        Instruction::Jalr { rd, rs1, imm } => ((imm & 0xfff) << 20) | ((rs1 & 0x1f) << 15) | ((rd
            & 0x1f) << 7) | 0x67,
        Instruction::Branch { funct3, rs1, rs2, imm } => {
            let e = (((imm >> 1) & 0xf) << 8) | (((imm >> 5) & 0x3f) << 25) | (((imm >> 11) & 0x1)
                << 7) | (((imm >> 12) & 0x1) << 31);
            e | ((rs2 & 0x1f) << 20) | ((rs1 & 0x1f) << 15) | ((funct3 & 0x7) << 12) | 0x63
        },
        Instruction::Load { funct3, rd, rs1, imm } => ((imm & 0xfff) << 20) | ((rs1 & 0x1f) << 15)
            | ((funct3 & 0x7) << 12) | ((rd & 0x1f) << 7) | 0x03,
        Instruction::Store { funct3, rs1, rs2, imm } => (((imm >> 5) & 0x7f) << 25) | ((imm & 0x1f)
            << 7) | ((rs2 & 0x1f) << 20) | ((rs1 & 0x1f) << 15) | ((funct3 & 0x7) << 12) | 0x23,
        Instruction::OpImm { funct3, rd, rs1, imm } => ((imm & 0xfff) << 20) | ((rs1 & 0x1f) << 15)
            | ((funct3 & 0x7) << 12) | ((rd & 0x1f) << 7) | 0x13,
        Instruction::Op { funct7, funct3, rd, rs1, rs2 } => ((funct7 & 0x7f) << 25) | ((rs2 & 0x1f)
            << 20) | ((rs1 & 0x1f) << 15) | ((funct3 & 0x7) << 12) | ((rd & 0x1f) << 7) | 0x33,
        Instruction::Fence { rd, rs1, imm } => ((imm & 0xfff) << 20) | ((rs1 & 0x1f) << 15) | ((rd
            & 0x1f) << 7) | 0x0f,
        Instruction::FenceI { rd, rs1, imm } => ((imm & 0xfff) << 20) | ((rs1 & 0x1f) << 15) | (
        0x1u32 << 12) | ((rd & 0x1f) << 7) | 0x0f,
        Instruction::Ecall => 0x0000_0073,
        Instruction::Ebreak => 0x0010_0073,
        Instruction::Csr { funct3, rd, rs1, csr } => ((csr & 0xfff) << 20) | ((rs1 & 0x1f) << 15)
            | ((funct3 & 0x7) << 12) | ((rd & 0x1f) << 7) | 0x73,
        Instruction::Amo { funct5, aqrl, rd, rs1, rs2 } => ((funct5 & 0x1f) << 27) | ((aqrl & 0x3)
            << 25) | ((rs2 & 0x1f) << 20) | ((rs1 & 0x1f) << 15) | (0x2u32 << 12) | ((rd & 0x1f)
            << 7) | 0x2f,
    }
}

/// Extract the sign-extended I-type immediate.
pub fn imm_i(w: u32) -> (r: u32)
    ensures
        r == imm_i_of(w),
{
    if w & 0x8000_0000 != 0 {
        (w >> 20) | 0xffff_f000
    } else {
        w >> 20
    }
}

/// Extract the sign-extended S-type immediate.
pub fn imm_s(w: u32) -> (r: u32)
    ensures
        r == imm_s_of(w),
{
    let low = ((w >> 25) << 5) | ((w >> 7) & 0x1f);
    if w & 0x8000_0000 != 0 {
        low | 0xffff_f000
    } else {
        low
    }
}

/// Extract the sign-extended B-type branch offset.
pub fn imm_b(w: u32) -> (r: u32)
    ensures
        r == imm_b_of(w),
{
    let low = (((w >> 8) & 0xf) << 1) | (((w >> 25) & 0x3f) << 5) | (((w >> 7) & 0x1) << 11);
    if w & 0x8000_0000 != 0 {
        low | 0xffff_f000
    } else {
        low
    }
}

/// Extract the sign-extended J-type jump offset.
pub fn imm_j(w: u32) -> (r: u32)
    ensures
        r == imm_j_of(w),
{
    let low = (((w >> 21) & 0x3ff) << 1) | (((w >> 20) & 0x1) << 11) | (((w >> 12) & 0xff) << 12);
    if w & 0x8000_0000 != 0 {
        low | 0xfff0_0000
    } else {
        low
    }
}

} // verus!
