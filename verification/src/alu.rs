//! Pure arithmetic: the integer ALU, the multiply/divide group, and the
//! atomic read-modify-write operations.

use vstd::prelude::*;

use crate::exception::MachineException;

verus! {

/// The value of `a` read as a two's complement 32-bit integer.
pub open spec fn sig(a: u32) -> int {
    if a >= 0x8000_0000 {
        a - 0x1_0000_0000
    } else {
        a as int
    }
}

/// The magnitude of `a` read as a two's complement 32-bit integer.
pub open spec fn mag(a: u32) -> int {
    if a >= 0x8000_0000 {
        0x1_0000_0000 - a
    } else {
        a as int
    }
}

/// Reduce an integer to its 32-bit two's complement representative.
pub open spec fn to_u32_wrap(v: int) -> u32 {
    (((v % 0x1_0000_0000) + 0x1_0000_0000) % 0x1_0000_0000) as u32
}

/// Arithmetic right shift: the vacated high bits copy the sign bit.
pub open spec fn sra_result(a: u32, sh: u32) -> u32 {
    if a & 0x8000_0000 != 0 {
        (a >> (sh & 31)) | !(0xffff_ffffu32 >> (sh & 31))
    } else {
        a >> (sh & 31)
    }
}

/// The result of one base ALU operation, selected by `op` (the `funct3`
/// field) and `alt` (the distinguishing `funct7` bit). `None` marks the
/// combinations that are not defined encodings: `alt` with anything but
/// add/sub (op 0) and shift-right (op 5).
pub open spec fn alu_result(alt: bool, op: u32, a: u32, b: u32) -> Option<u32> {
    if op == 0 {
        if alt {
            Some(a.wrapping_sub(b))
        } else {
            Some(a.wrapping_add(b))
        }
    } else if op == 1 {
        if alt {
            None
        } else {
            Some(a << (b & 31))
        }
    } else if op == 2 {
        if alt {
            None
        } else {
            Some(if sig(a) < sig(b) { 1 } else { 0 })
        }
    } else if op == 3 {
        if alt {
            None
        } else {
            Some(if a < b { 1 } else { 0 })
        }
    } else if op == 4 {
        if alt {
            None
        } else {
            Some(a ^ b)
        }
    } else if op == 5 {
        if alt {
            Some(sra_result(a, b))
        } else {
            Some(a >> (b & 31))
        }
    } else if op == 6 {
        if alt {
            None
        } else {
            Some(a | b)
        }
    } else if op == 7 {
        if alt {
            None
        } else {
            Some(a & b)
        }
    } else {
        None
    }
}

/// The new memory value of one atomic read-modify-write operation,
/// selected by `funct5`: AMOADD, AMOSWAP, AMOXOR, AMOOR, AMOAND, and the
/// signed and unsigned minimum and maximum. On ties, minimum and maximum
/// keep the old memory value.
pub open spec fn amo_result(funct5: u32, old_value: u32, src: u32) -> u32 {
    if funct5 == 0 {
        old_value.wrapping_add(src)
    } else if funct5 == 1 {
        src
    } else if funct5 == 4 {
        old_value ^ src
    } else if funct5 == 8 {
        old_value | src
    } else if funct5 == 12 {
        old_value & src
    } else if funct5 == 16 {
        if sig(old_value) <= sig(src) {
            old_value
        } else {
            src
        }
    } else if funct5 == 20 {
        if sig(old_value) >= sig(src) {
            old_value
        } else {
            src
        }
    } else if funct5 == 24 {
        if old_value <= src {
            old_value
        } else {
            src
        }
    } else if funct5 == 28 {
        if old_value >= src {
            old_value
        } else {
            src
        }
    } else {
        old_value
    }
}

/// Compute the value an atomic read-modify-write operation stores back.
pub fn amo_compute(funct5: u32, old_value: u32, src: u32) -> (r: u32)
    ensures
        r == amo_result(funct5, old_value, src),
{
    if funct5 == 0 {
        old_value.wrapping_add(src)
    } else if funct5 == 1 {
        src
    } else if funct5 == 4 {
        old_value ^ src
    } else if funct5 == 8 {
        old_value | src
    } else if funct5 == 12 {
        old_value & src
    } else if funct5 == 16 {
        if signed_less_than(src, old_value) {
            src
        } else {
            old_value
        }
    } else if funct5 == 20 {
        if signed_less_than(old_value, src) {
            src
        } else {
            old_value
        }
    } else if funct5 == 24 {
        if src < old_value {
            src
        } else {
            old_value
        }
    } else if funct5 == 28 {
        if old_value < src {
            src
        } else {
            old_value
        }
    } else {
        old_value
    }
}

/// A shift amount masked to five bits is a legal 32-bit shift.
pub proof fn lemma_shift_amount_in_range(b: u32)
    by (bit_vector)
    ensures
        b & 31 < 32,
{
}

/// Compare `a < b` as signed 32-bit integers.
pub fn signed_less_than(a: u32, b: u32) -> (r: bool)
    ensures
        r == (sig(a) < sig(b)),
{
    if (a >= 0x8000_0000) == (b >= 0x8000_0000) {
        a < b
    } else {
        a >= 0x8000_0000
    }
}

/// Perform one base ALU operation, or report that the encoding is not
/// defined.
pub fn alu_op(alt: bool, op: u32, a: u32, b: u32) -> (r: Result<u32, MachineException>)
    requires
        op < 8,
    ensures
        r is Ok <==> alu_result(alt, op, a, b) is Some,
        r matches Ok(v) ==> alu_result(alt, op, a, b) == Some(v),
        r matches Err(e) ==> e == MachineException::IllegalInstruction,
{
    match op {
        0 => {
            if alt {
                Ok(a.wrapping_sub(b))
            } else {
                Ok(a.wrapping_add(b))
            }
        },
        1 => {
            if alt {
                Err(MachineException::IllegalInstruction)
            } else {
                proof {
                    lemma_shift_amount_in_range(b);
                }
                Ok(a << (b & 31))
            }
        },
        2 => {
            if alt {
                Err(MachineException::IllegalInstruction)
            } else {
                Ok(if signed_less_than(a, b) { 1 } else { 0 })
            }
        },
        3 => {
            if alt {
                Err(MachineException::IllegalInstruction)
            } else {
                Ok(if a < b { 1 } else { 0 })
            }
        },
        4 => {
            if alt {
                Err(MachineException::IllegalInstruction)
            } else {
                Ok(a ^ b)
            }
        },
        5 => {
            proof {
                lemma_shift_amount_in_range(b);
            }
            let sh = b & 31;
            if alt {
                if a & 0x8000_0000 != 0 {
                    Ok((a >> sh) | !(0xffff_ffffu32 >> sh))
                } else {
                    Ok(a >> sh)
                }
            } else {
                Ok(a >> sh)
            }
        },
        6 => {
            if alt {
                Err(MachineException::IllegalInstruction)
            } else {
                Ok(a | b)
            }
        },
        _ => {
            if alt {
                Err(MachineException::IllegalInstruction)
            } else {
                Ok(a & b)
            }
        },
    }
}

} // verus!
