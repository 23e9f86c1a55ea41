//! The multiply/divide instruction group.
//!
//! Division follows the RISC-V conventions: division by zero returns
//! all-ones for the quotient and the dividend for the remainder; signed
//! overflow (dividing the minimum integer by minus one) returns the minimum
//! integer for the quotient and zero for the remainder. No exception is
//! ever raised.

use vstd::prelude::*;

use crate::alu::{sig, mag, to_u32_wrap};

verus! {

/// The two's complement bit pattern, as a 64-bit value, of a product that
/// fits in 64 bits.
pub open spec fn prod_bits64(p: int) -> int {
    ((p % 0x1_0000_0000_0000_0000) + 0x1_0000_0000_0000_0000) % 0x1_0000_0000_0000_0000
}

/// MUL: the low 32 bits of the product.
pub open spec fn mul_result(a: u32, b: u32) -> u32 {
    a.wrapping_mul(b)
}

/// MULH: the high 32 bits of the signed product.
pub open spec fn mulh_result(a: u32, b: u32) -> u32 {
    (prod_bits64(sig(a) * sig(b)) / 0x1_0000_0000) as u32
}

/// MULHSU: the high 32 bits of the product of signed `a` and unsigned `b`.
pub open spec fn mulhsu_result(a: u32, b: u32) -> u32 {
    (prod_bits64(sig(a) * b) / 0x1_0000_0000) as u32
}

/// MULHU: the high 32 bits of the unsigned product.
pub open spec fn mulhu_result(a: u32, b: u32) -> u32 {
    ((a * b) / 0x1_0000_0000) as u32
}

/// DIV: signed division truncated toward zero, with the RISC-V edge cases.
pub open spec fn div_result(a: u32, b: u32) -> u32 {
    if b == 0 {
        0xffff_ffff
    } else {
        let q = mag(a) / mag(b);
        if (a >= 0x8000_0000) != (b >= 0x8000_0000) {
            to_u32_wrap(-q)
        } else {
            to_u32_wrap(q)
        }
    }
}

/// DIVU: unsigned division; division by zero returns all ones.
pub open spec fn divu_result(a: u32, b: u32) -> u32 {
    if b == 0 {
        0xffff_ffff
    } else {
        (a as int / b as int) as u32
    }
}

/// REM: signed remainder, with the sign of the dividend.
pub open spec fn rem_result(a: u32, b: u32) -> u32 {
    if b == 0 {
        a
    } else {
        let r = mag(a) % mag(b);
        if a >= 0x8000_0000 {
            to_u32_wrap(-r)
        } else {
            to_u32_wrap(r)
        }
    }
}

/// REMU: unsigned remainder; remainder by zero returns the dividend.
pub open spec fn remu_result(a: u32, b: u32) -> u32 {
    if b == 0 {
        a
    } else {
        (a as int % b as int) as u32
    }
}

/// The result of one multiply/divide operation, selected by `funct3`.
pub open spec fn m_result(funct3: u32, a: u32, b: u32) -> u32 {
    if funct3 == 0 {
        mul_result(a, b)
    } else if funct3 == 1 {
        mulh_result(a, b)
    } else if funct3 == 2 {
        mulhsu_result(a, b)
    } else if funct3 == 3 {
        mulhu_result(a, b)
    } else if funct3 == 4 {
        div_result(a, b)
    } else if funct3 == 5 {
        divu_result(a, b)
    } else if funct3 == 6 {
        rem_result(a, b)
    } else {
        remu_result(a, b)
    }
}

/// Shifting a 64-bit value right by 32 is division by 2^32.
proof fn lemma_u64_shr32_is_div(x: u64)
    by (bit_vector)
    ensures
        x >> 32 == x / 0x1_0000_0000,
{
}

/// The unsigned magnitude of `a` as a signed 32-bit value.
fn magnitude(a: u32) -> (r: u32)
    ensures
        r as int == mag(a),
        r <= 0x8000_0000,
{
    if a >= 0x8000_0000 {
        0u32.wrapping_sub(a)
    } else {
        a
    }
}

/// High 32 bits of a signed product that fits in 64 bits, given the
/// product's magnitude and sign.
fn high_word_of_signed(p: u64, negative: bool) -> (r: u32)
    ensures
        r == (prod_bits64(if negative { -(p as int) } else { p as int }) / 0x1_0000_0000) as u32,
{
    let ghost product: int = if negative { -(p as int) } else { p as int };
    let bits: u64 = if negative {
        0u64.wrapping_sub(p)
    } else {
        p
    };
    proof {
        assert(bits as int == prod_bits64(product));
        lemma_u64_shr32_is_div(bits);
    }
    (bits >> 32) as u32
}

/// MULH: high 32 bits of the signed product.
pub fn mulh(a: u32, b: u32) -> (r: u32)
    ensures
        r == mulh_result(a, b),
{
    let neg_a = a >= 0x8000_0000;
    let neg_b = b >= 0x8000_0000;
    let ma = magnitude(a) as u64;
    let mb = magnitude(b) as u64;
    proof {
        assert(ma * mb <= 0x8000_0000u64 * 0x8000_0000u64) by (nonlinear_arith)
            requires
                ma <= 0x8000_0000u64 && mb <= 0x8000_0000u64,
        ;
    }
    let p: u64 = ma * mb;
    proof {
        if neg_a == neg_b {
            assert(sig(a) * sig(b) == p as int) by (nonlinear_arith)
                requires
                    (sig(a) == ma as int && sig(b) == mb as int) || (sig(a) == -(ma as int) && sig(
                        b,
                    ) == -(mb as int)),
                    p as int == (ma as int) * (mb as int),
            ;
        } else {
            assert(sig(a) * sig(b) == -(p as int)) by (nonlinear_arith)
                requires
                    (sig(a) == ma as int && sig(b) == -(mb as int)) || (sig(a) == -(ma as int)
                        && sig(b) == mb as int),
                    p as int == (ma as int) * (mb as int),
            ;
        }
    }
    high_word_of_signed(p, neg_a != neg_b)
}

/// MULHSU: high 32 bits of the product of signed `a` and unsigned `b`.
pub fn mulhsu(a: u32, b: u32) -> (r: u32)
    ensures
        r == mulhsu_result(a, b),
{
    let neg_a = a >= 0x8000_0000;
    let ma = magnitude(a) as u64;
    let wb = b as u64;
    proof {
        assert(ma * wb <= 0x8000_0000u64 * 0xffff_ffffu64) by (nonlinear_arith)
            requires
                ma <= 0x8000_0000u64 && wb <= 0xffff_ffffu64,
        ;
    }
    let p: u64 = ma * wb;
    proof {
        if neg_a {
            assert(sig(a) * b == -(p as int)) by (nonlinear_arith)
                requires
                    sig(a) == -(ma as int),
                    p as int == (ma as int) * (wb as int),
                    wb as int == b as int,
            ;
        } else {
            assert(sig(a) * b == p as int) by (nonlinear_arith)
                requires
                    sig(a) == ma as int,
                    p as int == (ma as int) * (wb as int),
                    wb as int == b as int,
            ;
        }
    }
    high_word_of_signed(p, neg_a)
}

/// MULHU: high 32 bits of the unsigned product.
pub fn mulhu(a: u32, b: u32) -> (r: u32)
    ensures
        r == mulhu_result(a, b),
{
    let wa = a as u64;
    let wb = b as u64;
    proof {
        assert(wa * wb <= 0xffff_ffffu64 * 0xffff_ffffu64) by (nonlinear_arith)
            requires
                wa <= 0xffff_ffffu64 && wb <= 0xffff_ffffu64,
        ;
    }
    let p: u64 = wa * wb;
    proof {
        lemma_u64_shr32_is_div(p);
    }
    (p >> 32) as u32
}

/// DIV: signed division truncated toward zero.
pub fn divs(a: u32, b: u32) -> (r: u32)
    ensures
        r == div_result(a, b),
{
    if b == 0 {
        return 0xffff_ffff;
    }
    let neg_a = a >= 0x8000_0000;
    let neg_b = b >= 0x8000_0000;
    let ma = magnitude(a);
    let mb = magnitude(b);
    let q = ma / mb;
    if neg_a != neg_b {
        0u32.wrapping_sub(q)
    } else {
        q
    }
}

/// REM: signed remainder with the sign of the dividend.
pub fn rems(a: u32, b: u32) -> (r: u32)
    ensures
        r == rem_result(a, b),
{
    if b == 0 {
        return a;
    }
    let neg_a = a >= 0x8000_0000;
    let ma = magnitude(a);
    let mb = magnitude(b);
    let rm = ma % mb;
    if neg_a {
        0u32.wrapping_sub(rm)
    } else {
        rm
    }
}

/// Perform one multiply/divide operation, selected by `funct3`.
pub fn m_op(funct3: u32, a: u32, b: u32) -> (r: u32)
    requires
        funct3 < 8,
    ensures
        r == m_result(funct3, a, b),
{
    match funct3 {
        0 => a.wrapping_mul(b),
        1 => mulh(a, b),
        2 => mulhsu(a, b),
        3 => mulhu(a, b),
        4 => divs(a, b),
        5 => {
            if b == 0 {
                0xffff_ffff
            } else {
                a / b
            }
        },
        6 => rems(a, b),
        _ => {
            if b == 0 {
                a
            } else {
                a % b
            }
        },
    }
}

} // verus!
