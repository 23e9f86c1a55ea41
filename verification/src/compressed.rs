//! The C extension: expansion of 16-bit compressed encodings into their
//! canonical 32-bit equivalents.
//!
//! Every legal compressed instruction maps to one 32-bit instruction with
//! identical architectural effects; the core executes the expansion, with
//! the fall-through program counter two bytes after the fetch instead of
//! four. Compressed forms of floating-point loads and stores are not legal
//! here because this build carries no float registers.

use vstd::prelude::*;

use crate::decode::{decode_inst, enc_b, enc_j, funct3_of, funct7_of};

verus! {

/// Assemble an I-type word.
pub open spec fn i_type(imm: u32, rs1: u32, funct3: u32, rd: u32, opcode: u32) -> u32 {
    ((imm & 0xfff) << 20) | ((rs1 & 0x1f) << 15) | ((funct3 & 0x7) << 12) | ((rd & 0x1f) << 7) | (
    opcode & 0x7f)
}

/// Assemble an S-type word.
pub open spec fn s_type(imm: u32, rs1: u32, rs2: u32, funct3: u32, opcode: u32) -> u32 {
    (((imm >> 5) & 0x7f) << 25) | ((imm & 0x1f) << 7) | ((rs2 & 0x1f) << 20) | ((rs1 & 0x1f) << 15)
        | ((funct3 & 0x7) << 12) | (opcode & 0x7f)
}

/// Assemble a B-type word.
pub open spec fn b_type(imm: u32, rs1: u32, rs2: u32, funct3: u32) -> u32 {
    enc_b(imm) | ((rs2 & 0x1f) << 20) | ((rs1 & 0x1f) << 15) | ((funct3 & 0x7) << 12) | 0x63
}

/// Assemble a U-type word.
pub open spec fn u_type(imm: u32, rd: u32, opcode: u32) -> u32 {
    (imm & 0xffff_f000) | ((rd & 0x1f) << 7) | (opcode & 0x7f)
}

/// Assemble a J-type word.
pub open spec fn j_type(imm: u32, rd: u32) -> u32 {
    enc_j(imm) | ((rd & 0x1f) << 7) | 0x6f
}

/// Assemble an R-type word.
pub open spec fn r_type(funct7: u32, rs2: u32, rs1: u32, funct3: u32, rd: u32) -> u32 {
    ((funct7 & 0x7f) << 25) | ((rs2 & 0x1f) << 20) | ((rs1 & 0x1f) << 15) | ((funct3 & 0x7) << 12)
        | ((rd & 0x1f) << 7) | 0x33
}

/// Sign-extend a 6-bit field.
pub open spec fn sext6(v: u32) -> u32 {
    if v & 0x20 != 0 {
        v | 0xffff_ffc0
    } else {
        v
    }
}

/// The 6-bit immediate of the CI format: bits 12 and 6..2, sign-extended.
pub open spec fn ci_imm(x: u32) -> u32 {
    sext6((((x >> 12) & 1) << 5) | ((x >> 2) & 0x1f))
}

/// The scaled zero-extended immediate of C.ADDI4SPN.
pub open spec fn addi4spn_imm(x: u32) -> u32 {
    (((x >> 7) & 0xf) << 6) | (((x >> 11) & 3) << 4) | (((x >> 5) & 1) << 3) | (((x >> 6) & 1)
        << 2)
}

/// The scaled zero-extended word offset of C.LW and C.SW.
pub open spec fn clw_imm(x: u32) -> u32 {
    (((x >> 10) & 7) << 3) | (((x >> 6) & 1) << 2) | (((x >> 5) & 1) << 6)
}

/// The sign-extended jump offset of C.JAL and C.J.
pub open spec fn cj_imm(x: u32) -> u32 {
    let v = (((x >> 12) & 1) << 11) | (((x >> 11) & 1) << 4) | (((x >> 9) & 3) << 8) | (((x >> 8)
        & 1) << 10) | (((x >> 7) & 1) << 6) | (((x >> 6) & 1) << 7) | (((x >> 3) & 7) << 1) | (((x
        >> 2) & 1) << 5);
    if v & 0x800 != 0 {
        v | 0xffff_f000
    } else {
        v
    }
}

/// The sign-extended stack adjustment of C.ADDI16SP.
pub open spec fn addi16sp_imm(x: u32) -> u32 {
    let v = (((x >> 12) & 1) << 9) | (((x >> 6) & 1) << 4) | (((x >> 5) & 1) << 6) | (((x >> 3)
        & 3) << 7) | (((x >> 2) & 1) << 5);
    if v & 0x200 != 0 {
        v | 0xffff_fc00
    } else {
        v
    }
}

/// The sign-extended branch offset of C.BEQZ and C.BNEZ.
pub open spec fn cb_imm(x: u32) -> u32 {
    let v = (((x >> 12) & 1) << 8) | (((x >> 10) & 3) << 3) | (((x >> 5) & 3) << 6) | (((x >> 3)
        & 3) << 1) | (((x >> 2) & 1) << 5);
    if v & 0x100 != 0 {
        v | 0xffff_fe00
    } else {
        v
    }
}

/// The scaled zero-extended stack offset of C.LWSP.
pub open spec fn lwsp_imm(x: u32) -> u32 {
    (((x >> 12) & 1) << 5) | (((x >> 4) & 7) << 2) | (((x >> 2) & 3) << 6)
}

/// The scaled zero-extended stack offset of C.SWSP.
pub open spec fn swsp_imm(x: u32) -> u32 {
    (((x >> 9) & 0xf) << 2) | (((x >> 7) & 3) << 6)
}

/// Expand one 16-bit compressed encoding into its canonical 32-bit
/// equivalent, or `None` if the encoding is not legal here: reserved
/// encodings, the all-zero word, RV64-only forms, shifts with the high
/// shift-amount bit set, and the floating-point loads and stores.
pub open spec fn expand_c(h: u16) -> Option<u32> {
    let x = h as u32;
    let quadrant = x & 3;
    let funct3 = (x >> 13) & 7;
    if quadrant == 0 {
        if funct3 == 0 {
            // C.ADDI4SPN
            let imm = addi4spn_imm(x);
            let rdp = ((x >> 2) & 7) | 8;
            if imm == 0 {
                None
            } else {
                Some(i_type(imm, 2, 0, rdp, 0x13))
            }
        } else if funct3 == 2 {
            // C.LW
            let rdp = ((x >> 2) & 7) | 8;
            let rs1p = ((x >> 7) & 7) | 8;
            Some(i_type(clw_imm(x), rs1p, 2, rdp, 0x03))
        } else if funct3 == 6 {
            // C.SW
            let rs2p = ((x >> 2) & 7) | 8;
            let rs1p = ((x >> 7) & 7) | 8;
            Some(s_type(clw_imm(x), rs1p, rs2p, 2, 0x23))
        } else {
            None
        }
    } else if quadrant == 1 {
        let rd = (x >> 7) & 0x1f;
        if funct3 == 0 {
            // C.ADDI (and C.NOP)
            Some(i_type(ci_imm(x), rd, 0, rd, 0x13))
        } else if funct3 == 1 {
            // C.JAL
            Some(j_type(cj_imm(x), 1))
        } else if funct3 == 2 {
            // C.LI
            Some(i_type(ci_imm(x), 0, 0, rd, 0x13))
        } else if funct3 == 3 {
            if rd == 2 {
                // C.ADDI16SP
                if addi16sp_imm(x) == 0 {
                    None
                } else {
                    Some(i_type(addi16sp_imm(x), 2, 0, 2, 0x13))
                }
            } else {
                // C.LUI
                if ci_imm(x) == 0 {
                    None
                } else {
                    Some(u_type(ci_imm(x) << 12, rd, 0x37))
                }
            }
        } else if funct3 == 4 {
            let rdp = ((x >> 7) & 7) | 8;
            let funct2 = (x >> 10) & 3;
            if funct2 == 0 {
                // C.SRLI
                if (x >> 12) & 1 != 0 {
                    None
                } else {
                    Some(i_type((x >> 2) & 0x1f, rdp, 5, rdp, 0x13))
                }
            } else if funct2 == 1 {
                // C.SRAI
                if (x >> 12) & 1 != 0 {
                    None
                } else {
                    Some(i_type(0x400 | ((x >> 2) & 0x1f), rdp, 5, rdp, 0x13))
                }
            } else if funct2 == 2 {
                // C.ANDI
                Some(i_type(ci_imm(x), rdp, 7, rdp, 0x13))
            } else {
                if (x >> 12) & 1 != 0 {
                    None
                } else {
                    let rs2p = ((x >> 2) & 7) | 8;
                    let op = (x >> 5) & 3;
                    if op == 0 {
                        // C.SUB
                        Some(r_type(0x20, rs2p, rdp, 0, rdp))
                    } else if op == 1 {
                        // C.XOR
                        Some(r_type(0, rs2p, rdp, 4, rdp))
                    } else if op == 2 {
                        // C.OR
                        Some(r_type(0, rs2p, rdp, 6, rdp))
                    } else {
                        // C.AND
                        Some(r_type(0, rs2p, rdp, 7, rdp))
                    }
                }
            }
        } else if funct3 == 5 {
            // C.J
            Some(j_type(cj_imm(x), 0))
        } else if funct3 == 6 {
            // C.BEQZ
            let rs1p = ((x >> 7) & 7) | 8;
            Some(b_type(cb_imm(x), rs1p, 0, 0))
        } else {
            // C.BNEZ
            let rs1p = ((x >> 7) & 7) | 8;
            Some(b_type(cb_imm(x), rs1p, 0, 1))
        }
    } else if quadrant == 2 {
        let rd = (x >> 7) & 0x1f;
        let rs2 = (x >> 2) & 0x1f;
        if funct3 == 0 {
            // C.SLLI
            if (x >> 12) & 1 != 0 {
                None
            } else {
                Some(i_type(rs2, rd, 1, rd, 0x13))
            }
        } else if funct3 == 2 {
            // C.LWSP
            if rd == 0 {
                None
            } else {
                Some(i_type(lwsp_imm(x), 2, 2, rd, 0x03))
            }
        } else if funct3 == 4 {
            if (x >> 12) & 1 == 0 {
                if rs2 == 0 {
                    // C.JR
                    if rd == 0 {
                        None
                    } else {
                        Some(i_type(0, rd, 0, 0, 0x67))
                    }
                } else {
                    // C.MV
                    Some(r_type(0, rs2, 0, 0, rd))
                }
            } else {
                if rs2 == 0 {
                    if rd == 0 {
                        // C.EBREAK
                        Some(0x0010_0073)
                    } else {
                        // C.JALR
                        Some(i_type(0, rd, 0, 1, 0x67))
                    }
                } else {
                    // C.ADD
                    Some(r_type(0, rs2, rd, 0, rd))
                }
            }
        } else if funct3 == 6 {
            // C.SWSP
            Some(s_type(swsp_imm(x), 2, rs2, 2, 0x23))
        } else {
            None
        }
    } else {
        None
    }
}

/// Field projections of an assembled I-type word.
proof fn lemma_itype_fields(imm: u32, rs1: u32, f3: u32, rd: u32, op: u32)
    by (bit_vector)
    ensures
        i_type(imm, rs1, f3, rd, op) & 3 == op & 3,
        i_type(imm, rs1, f3, rd, op) & 0x7f == op & 0x7f,
        funct3_of(i_type(imm, rs1, f3, rd, op)) == f3 & 7,
        funct7_of(i_type(imm, rs1, f3, rd, op)) == (imm >> 5) & 0x7f,
{
}

/// Field projections of an assembled S-type word.
proof fn lemma_stype_fields(imm: u32, rs1: u32, rs2: u32, f3: u32, op: u32)
    by (bit_vector)
    ensures
        s_type(imm, rs1, rs2, f3, op) & 3 == op & 3,
        s_type(imm, rs1, rs2, f3, op) & 0x7f == op & 0x7f,
        funct3_of(s_type(imm, rs1, rs2, f3, op)) == f3 & 7,
{
}

/// Field projections of an assembled B-type word.
proof fn lemma_btype_fields(imm: u32, rs1: u32, rs2: u32, f3: u32)
    by (bit_vector)
    ensures
        b_type(imm, rs1, rs2, f3) & 3 == 3u32,
        b_type(imm, rs1, rs2, f3) & 0x7f == 0x63u32,
        funct3_of(b_type(imm, rs1, rs2, f3)) == f3 & 7,
{
}

/// Field projections of an assembled U-type word.
proof fn lemma_utype_fields(imm: u32, rd: u32, op: u32)
    by (bit_vector)
    ensures
        u_type(imm, rd, op) & 3 == op & 3,
        u_type(imm, rd, op) & 0x7f == op & 0x7f,
{
}

/// Field projections of an assembled J-type word.
proof fn lemma_jtype_fields(imm: u32, rd: u32)
    by (bit_vector)
    ensures
        j_type(imm, rd) & 3 == 3u32,
        j_type(imm, rd) & 0x7f == 0x6fu32,
{
}

/// Field projections of an assembled R-type word.
proof fn lemma_rtype_fields(f7: u32, rs2: u32, rs1: u32, f3: u32, rd: u32)
    by (bit_vector)
    ensures
        r_type(f7, rs2, rs1, f3, rd) & 3 == 3u32,
        r_type(f7, rs2, rs1, f3, rd) & 0x7f == 0x33u32,
        funct3_of(r_type(f7, rs2, rs1, f3, rd)) == f3 & 7,
        funct7_of(r_type(f7, rs2, rs1, f3, rd)) == f7 & 0x7f,
{
}

/// Every legal compressed encoding expands to a defined 32-bit
/// instruction: the expansion always decodes, so a compressed fetch
/// executes exactly as its canonical 32-bit form does, the only difference
/// being the fall-through program counter two bytes after the fetch
/// instead of four.
pub proof fn lemma_expansion_decodes(h: u16)
    requires
        expand_c(h) is Some,
    ensures
        decode_inst(expand_c(h)->Some_0) is Some,
{
    let x = h as u32;
    let quadrant = x & 3;
    let funct3 = (x >> 13) & 7;
    assert(0x13u32 & 3 == 3 && 0x13u32 & 0x7f == 0x13 && 0x03u32 & 3 == 3 && 0x03u32 & 0x7f == 0x03
        && 0x23u32 & 3 == 3 && 0x23u32 & 0x7f == 0x23 && 0x67u32 & 3 == 3 && 0x67u32 & 0x7f == 0x67
        && 0x37u32 & 3 == 3 && 0x37u32 & 0x7f == 0x37 && 0u32 & 7 == 0 && 1u32 & 7 == 1 && 2u32 & 7
        == 2 && 4u32 & 7 == 4 && 5u32 & 7 == 5 && 6u32 & 7 == 6 && 7u32 & 7 == 7 && 0u32 & 0x7f
        == 0 && 0x20u32 & 0x7f == 0x20) by (bit_vector);
    assert((0u32 >> 5) & 0x7f == 0 && ((((x >> 2) & 0x1f)) >> 5) & 0x7f == 0 && (((0x400u32 | ((x
        >> 2) & 0x1f))) >> 5) & 0x7f == 0x20) by (bit_vector);
    if quadrant == 0 {
        if funct3 == 0 {
            lemma_itype_fields(addi4spn_imm(x), 2, 0, ((x >> 2) & 7) | 8, 0x13);
        } else if funct3 == 2 {
            lemma_itype_fields(clw_imm(x), ((x >> 7) & 7) | 8, 2, ((x >> 2) & 7) | 8, 0x03);
        } else if funct3 == 6 {
            lemma_stype_fields(clw_imm(x), ((x >> 7) & 7) | 8, ((x >> 2) & 7) | 8, 2, 0x23);
        }
    } else if quadrant == 1 {
        let rd = (x >> 7) & 0x1f;
        if funct3 == 0 {
            lemma_itype_fields(ci_imm(x), rd, 0, rd, 0x13);
        } else if funct3 == 1 {
            lemma_jtype_fields(cj_imm(x), 1);
        } else if funct3 == 2 {
            lemma_itype_fields(ci_imm(x), 0, 0, rd, 0x13);
        } else if funct3 == 3 {
            if rd == 2 {
                lemma_itype_fields(addi16sp_imm(x), 2, 0, 2, 0x13);
            } else {
                lemma_utype_fields(ci_imm(x) << 12, rd, 0x37);
            }
        } else if funct3 == 4 {
            let rdp = ((x >> 7) & 7) | 8;
            let funct2 = (x >> 10) & 3;
            if funct2 == 0 {
                lemma_itype_fields((x >> 2) & 0x1f, rdp, 5, rdp, 0x13);
            } else if funct2 == 1 {
                lemma_itype_fields(0x400 | ((x >> 2) & 0x1f), rdp, 5, rdp, 0x13);
            } else if funct2 == 2 {
                lemma_itype_fields(ci_imm(x), rdp, 7, rdp, 0x13);
            } else {
                if (x >> 12) & 1 == 0 {
                    let rs2p = ((x >> 2) & 7) | 8;
                    let op = (x >> 5) & 3;
                    if op == 0 {
                        lemma_rtype_fields(0x20, rs2p, rdp, 0, rdp);
                    } else if op == 1 {
                        lemma_rtype_fields(0, rs2p, rdp, 4, rdp);
                    } else if op == 2 {
                        lemma_rtype_fields(0, rs2p, rdp, 6, rdp);
                    } else {
                        lemma_rtype_fields(0, rs2p, rdp, 7, rdp);
                    }
                }
            }
        } else if funct3 == 5 {
            lemma_jtype_fields(cj_imm(x), 0);
        } else if funct3 == 6 {
            lemma_btype_fields(cb_imm(x), ((x >> 7) & 7) | 8, 0, 0);
        } else {
            lemma_btype_fields(cb_imm(x), ((x >> 7) & 7) | 8, 0, 1);
        }
    } else if quadrant == 2 {
        let rd = (x >> 7) & 0x1f;
        let rs2 = (x >> 2) & 0x1f;
        if funct3 == 0 {
            lemma_itype_fields(rs2, rd, 1, rd, 0x13);
        } else if funct3 == 2 {
            lemma_itype_fields(lwsp_imm(x), 2, 2, rd, 0x03);
        } else if funct3 == 4 {
            if (x >> 12) & 1 == 0 {
                if rs2 == 0 {
                    lemma_itype_fields(0, rd, 0, 0, 0x67);
                } else {
                    lemma_rtype_fields(0, rs2, 0, 0, rd);
                }
            } else {
                if rs2 == 0 {
                    if rd == 0 {
                        assert(0x0010_0073u32 & 3 == 3 && 0x0010_0073u32 & 0x7f == 0x73
                            && funct3_of(0x0010_0073u32) == 0) by (bit_vector);
                    } else {
                        lemma_itype_fields(0, rd, 0, 1, 0x67);
                    }
                } else {
                    lemma_rtype_fields(0, rs2, rd, 0, rd);
                }
            }
        } else if funct3 == 6 {
            lemma_stype_fields(swsp_imm(x), 2, rs2, 2, 0x23);
        }
    }
}

/// Expand one compressed encoding, or report that it is not legal.
pub fn expand_compressed(h: u16) -> (r: Option<u32>)
    ensures
        r == expand_c(h),
{
    let x = h as u32;
    let quadrant = x & 3;
    let funct3 = (x >> 13) & 7;
    if quadrant == 0 {
        if funct3 == 0 {
            let imm = (((x >> 7) & 0xf) << 6) | (((x >> 11) & 3) << 4) | (((x >> 5) & 1) << 3) | ((
            (x >> 6) & 1) << 2);
            let rdp = ((x >> 2) & 7) | 8;
            if imm == 0 {
                None
            } else {
                Some(i_type_word(imm, 2, 0, rdp, 0x13))
            }
        } else if funct3 == 2 {
            let rdp = ((x >> 2) & 7) | 8;
            let rs1p = ((x >> 7) & 7) | 8;
            Some(i_type_word(clw_imm_word(x), rs1p, 2, rdp, 0x03))
        } else if funct3 == 6 {
            let rs2p = ((x >> 2) & 7) | 8;
            let rs1p = ((x >> 7) & 7) | 8;
            Some(s_type_word(clw_imm_word(x), rs1p, rs2p, 2, 0x23))
        } else {
            None
        }
    } else if quadrant == 1 {
        let rd = (x >> 7) & 0x1f;
        if funct3 == 0 {
            Some(i_type_word(ci_imm_word(x), rd, 0, rd, 0x13))
        } else if funct3 == 1 {
            Some(j_type_word(cj_imm_word(x), 1))
        } else if funct3 == 2 {
            Some(i_type_word(ci_imm_word(x), 0, 0, rd, 0x13))
        } else if funct3 == 3 {
            if rd == 2 {
                let imm = addi16sp_imm_word(x);
                if imm == 0 {
                    None
                } else {
                    Some(i_type_word(imm, 2, 0, 2, 0x13))
                }
            } else {
                let imm = ci_imm_word(x);
                if imm == 0 {
                    None
                } else {
                    Some(u_type_word(imm << 12, rd, 0x37))
                }
            }
        } else if funct3 == 4 {
            let rdp = ((x >> 7) & 7) | 8;
            let funct2 = (x >> 10) & 3;
            if funct2 == 0 {
                if (x >> 12) & 1 != 0 {
                    None
                } else {
                    Some(i_type_word((x >> 2) & 0x1f, rdp, 5, rdp, 0x13))
                }
            } else if funct2 == 1 {
                if (x >> 12) & 1 != 0 {
                    None
                } else {
                    Some(i_type_word(0x400 | ((x >> 2) & 0x1f), rdp, 5, rdp, 0x13))
                }
            } else if funct2 == 2 {
                Some(i_type_word(ci_imm_word(x), rdp, 7, rdp, 0x13))
            } else {
                if (x >> 12) & 1 != 0 {
                    None
                } else {
                    let rs2p = ((x >> 2) & 7) | 8;
                    let op = (x >> 5) & 3;
                    if op == 0 {
                        Some(r_type_word(0x20, rs2p, rdp, 0, rdp))
                    } else if op == 1 {
                        Some(r_type_word(0, rs2p, rdp, 4, rdp))
                    } else if op == 2 {
                        Some(r_type_word(0, rs2p, rdp, 6, rdp))
                    } else {
                        Some(r_type_word(0, rs2p, rdp, 7, rdp))
                    }
                }
            }
        } else if funct3 == 5 {
            Some(j_type_word(cj_imm_word(x), 0))
        } else if funct3 == 6 {
            let rs1p = ((x >> 7) & 7) | 8;
            Some(b_type_word(cb_imm_word(x), rs1p, 0, 0))
        } else {
            let rs1p = ((x >> 7) & 7) | 8;
            Some(b_type_word(cb_imm_word(x), rs1p, 0, 1))
        }
    } else if quadrant == 2 {
        let rd = (x >> 7) & 0x1f;
        let rs2 = (x >> 2) & 0x1f;
        if funct3 == 0 {
            if (x >> 12) & 1 != 0 {
                None
            } else {
                Some(i_type_word(rs2, rd, 1, rd, 0x13))
            }
        } else if funct3 == 2 {
            if rd == 0 {
                None
            } else {
                Some(i_type_word(lwsp_imm_word(x), 2, 2, rd, 0x03))
            }
        } else if funct3 == 4 {
            if (x >> 12) & 1 == 0 {
                if rs2 == 0 {
                    if rd == 0 {
                        None
                    } else {
                        Some(i_type_word(0, rd, 0, 0, 0x67))
                    }
                } else {
                    Some(r_type_word(0, rs2, 0, 0, rd))
                }
            } else {
                if rs2 == 0 {
                    if rd == 0 {
                        Some(0x0010_0073)
                    } else {
                        Some(i_type_word(0, rd, 0, 1, 0x67))
                    }
                } else {
                    Some(r_type_word(0, rs2, rd, 0, rd))
                }
            }
        } else if funct3 == 6 {
            Some(s_type_word(swsp_imm_word(x), 2, rs2, 2, 0x23))
        } else {
            None
        }
    } else {
        None
    }
}

/// Assemble an I-type word.
fn i_type_word(imm: u32, rs1: u32, funct3: u32, rd: u32, opcode: u32) -> (r: u32)
    ensures
        r == i_type(imm, rs1, funct3, rd, opcode),
{
    ((imm & 0xfff) << 20) | ((rs1 & 0x1f) << 15) | ((funct3 & 0x7) << 12) | ((rd & 0x1f) << 7) | (
    opcode & 0x7f)
}

/// Assemble an S-type word.
fn s_type_word(imm: u32, rs1: u32, rs2: u32, funct3: u32, opcode: u32) -> (r: u32)
    ensures
        r == s_type(imm, rs1, rs2, funct3, opcode),
{
    (((imm >> 5) & 0x7f) << 25) | ((imm & 0x1f) << 7) | ((rs2 & 0x1f) << 20) | ((rs1 & 0x1f) << 15)
        | ((funct3 & 0x7) << 12) | (opcode & 0x7f)
}

/// Assemble a B-type word.
fn b_type_word(imm: u32, rs1: u32, rs2: u32, funct3: u32) -> (r: u32)
    ensures
        r == b_type(imm, rs1, rs2, funct3),
{
    let e = (((imm >> 1) & 0xf) << 8) | (((imm >> 5) & 0x3f) << 25) | (((imm >> 11) & 0x1) << 7) | (
    ((imm >> 12) & 0x1) << 31);
    e | ((rs2 & 0x1f) << 20) | ((rs1 & 0x1f) << 15) | ((funct3 & 0x7) << 12) | 0x63
}

/// Assemble a U-type word.
fn u_type_word(imm: u32, rd: u32, opcode: u32) -> (r: u32)
    ensures
        r == u_type(imm, rd, opcode),
{
    (imm & 0xffff_f000) | ((rd & 0x1f) << 7) | (opcode & 0x7f)
}

/// Assemble a J-type word.
fn j_type_word(imm: u32, rd: u32) -> (r: u32)
    ensures
        r == j_type(imm, rd),
{
    let e = (((imm >> 1) & 0x3ff) << 21) | (((imm >> 11) & 0x1) << 20) | (((imm >> 12) & 0xff)
        << 12) | (((imm >> 20) & 0x1) << 31);
    e | ((rd & 0x1f) << 7) | 0x6f
}

/// Assemble an R-type word.
fn r_type_word(funct7: u32, rs2: u32, rs1: u32, funct3: u32, rd: u32) -> (r: u32)
    ensures
        r == r_type(funct7, rs2, rs1, funct3, rd),
{
    ((funct7 & 0x7f) << 25) | ((rs2 & 0x1f) << 20) | ((rs1 & 0x1f) << 15) | ((funct3 & 0x7) << 12)
        | ((rd & 0x1f) << 7) | 0x33
}

/// The CI-format immediate.
fn ci_imm_word(x: u32) -> (r: u32)
    ensures
        r == ci_imm(x),
{
    let v = (((x >> 12) & 1) << 5) | ((x >> 2) & 0x1f);
    if v & 0x20 != 0 {
        v | 0xffff_ffc0
    } else {
        v
    }
}

/// The C.LW / C.SW word offset.
fn clw_imm_word(x: u32) -> (r: u32)
    ensures
        r == clw_imm(x),
{
    (((x >> 10) & 7) << 3) | (((x >> 6) & 1) << 2) | (((x >> 5) & 1) << 6)
}

/// The C.JAL / C.J jump offset.
fn cj_imm_word(x: u32) -> (r: u32)
    ensures
        r == cj_imm(x),
{
    let v = (((x >> 12) & 1) << 11) | (((x >> 11) & 1) << 4) | (((x >> 9) & 3) << 8) | (((x >> 8)
        & 1) << 10) | (((x >> 7) & 1) << 6) | (((x >> 6) & 1) << 7) | (((x >> 3) & 7) << 1) | (((x
        >> 2) & 1) << 5);
    if v & 0x800 != 0 {
        v | 0xffff_f000
    } else {
        v
    }
}

/// The C.ADDI16SP stack adjustment.
fn addi16sp_imm_word(x: u32) -> (r: u32)
    ensures
        r == addi16sp_imm(x),
{
    let v = (((x >> 12) & 1) << 9) | (((x >> 6) & 1) << 4) | (((x >> 5) & 1) << 6) | (((x >> 3)
        & 3) << 7) | (((x >> 2) & 1) << 5);
    if v & 0x200 != 0 {
        v | 0xffff_fc00
    } else {
        v
    }
}

/// The C.BEQZ / C.BNEZ branch offset.
fn cb_imm_word(x: u32) -> (r: u32)
    ensures
        r == cb_imm(x),
{
    let v = (((x >> 12) & 1) << 8) | (((x >> 10) & 3) << 3) | (((x >> 5) & 3) << 6) | (((x >> 3)
        & 3) << 1) | (((x >> 2) & 1) << 5);
    if v & 0x100 != 0 {
        v | 0xffff_fe00
    } else {
        v
    }
}

/// The C.LWSP stack offset.
fn lwsp_imm_word(x: u32) -> (r: u32)
    ensures
        r == lwsp_imm(x),
{
    (((x >> 12) & 1) << 5) | (((x >> 4) & 7) << 2) | (((x >> 2) & 3) << 6)
}

/// The C.SWSP stack offset.
fn swsp_imm_word(x: u32) -> (r: u32)
    ensures
        r == swsp_imm(x),
{
    (((x >> 9) & 0xf) << 2) | (((x >> 7) & 3) << 6)
}

} // verus!
