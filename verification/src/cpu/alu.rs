//! The arithmetic of RV32IM on 32-bit register values: two's-complement
//! reading of a word, shifts, comparisons, and the M-extension multiply and
//! divide with their defined results for division by zero and overflow.
use vstd::prelude::*;
use super::types::Immediate;

verus! {

/// Absolute value.
pub open spec fn abs(x: int) -> int {
    if x < 0 {
        -x
    } else {
        x
    }
}

/// The signed value a word holds in two's complement.
pub open spec fn to_signed(x: u32) -> int {
    if x < 0x8000_0000 {
        x as int
    } else {
        x as int - 0x1_0000_0000
    }
}

/// The word that holds `v` modulo 2^32.
pub open spec fn from_int(v: int) -> u32 {
    (v % 0x1_0000_0000) as u32
}

/// The word an immediate contributes to an addition: its two's-complement bits.
pub open spec fn imm_u32(i: Immediate) -> u32 {
    if i.0 >= 0 {
        i.0 as u32
    } else {
        (i.0 + 0x1_0000_0000) as u32
    }
}

/// Bits 63..32 of a 64-bit product, in two's complement: the high word of
/// `p` taken modulo 2^64.
pub open spec fn high_word(p: int) -> u32 {
    ((p / 0x1_0000_0000) % 0x1_0000_0000) as u32
}

/// Quotient rounded toward zero.
pub open spec fn trunc_div(x: int, y: int) -> int {
    let q = abs(x) / abs(y);
    if (x < 0) != (y < 0) {
        -q
    } else {
        q
    }
}

/// Remainder with the sign of the dividend.
pub open spec fn trunc_rem(x: int, y: int) -> int {
    let r = abs(x) % abs(y);
    if x < 0 {
        -r
    } else {
        r
    }
}

/// SLL: shift left by the low five bits of `s`.
pub open spec fn sll(a: u32, s: u32) -> u32 {
    a << (s & 0x1F)
}

/// SRL: logical shift right by the low five bits of `s`.
pub open spec fn srl(a: u32, s: u32) -> u32 {
    a >> (s & 0x1F)
}

/// SRA: arithmetic shift right by the low five bits of `s`; a negative value
/// shifts in ones.
pub open spec fn sra(a: u32, s: u32) -> u32 {
    if a < 0x8000_0000 {
        a >> (s & 0x1F)
    } else {
        !((!a) >> (s & 0x1F))
    }
}

/// SLT: 1 when `a < b` as signed values.
pub open spec fn slt(a: u32, b: u32) -> u32 {
    if to_signed(a) < to_signed(b) {
        1
    } else {
        0
    }
}

/// SLTU: 1 when `a < b` as unsigned values.
pub open spec fn sltu(a: u32, b: u32) -> u32 {
    if a < b {
        1
    } else {
        0
    }
}

/// MUL: the low word of the product.
pub open spec fn mul_lo(a: u32, b: u32) -> u32 {
    from_int(a as int * b as int)
}

/// MULH: high word of the signed x signed product.
pub open spec fn mulh(a: u32, b: u32) -> u32 {
    high_word(to_signed(a) * to_signed(b))
}

/// MULHSU: high word of the signed x unsigned product.
pub open spec fn mulhsu(a: u32, b: u32) -> u32 {
    high_word(to_signed(a) * b as int)
}

/// MULHU: high word of the unsigned x unsigned product.
pub open spec fn mulhu(a: u32, b: u32) -> u32 {
    high_word(a as int * b as int)
}

/// DIV: signed division rounding toward zero; all ones for division by zero,
/// and the dividend for the overflowing -2^31 / -1.
pub open spec fn div_s(a: u32, b: u32) -> u32 {
    if b == 0 {
        0xFFFF_FFFF
    } else if a == 0x8000_0000 && b == 0xFFFF_FFFF {
        0x8000_0000
    } else {
        from_int(trunc_div(to_signed(a), to_signed(b)))
    }
}

/// DIVU: unsigned division; all ones for division by zero.
pub open spec fn div_u(a: u32, b: u32) -> u32 {
    if b == 0 {
        0xFFFF_FFFF
    } else {
        a / b
    }
}

/// REM: remainder of signed division (sign of the dividend); the dividend for
/// division by zero, and 0 for -2^31 % -1.
pub open spec fn rem_s(a: u32, b: u32) -> u32 {
    if b == 0 {
        a
    } else if a == 0x8000_0000 && b == 0xFFFF_FFFF {
        0
    } else {
        from_int(trunc_rem(to_signed(a), to_signed(b)))
    }
}

/// REMU: remainder of unsigned division; the dividend for division by zero.
pub open spec fn rem_u(a: u32, b: u32) -> u32 {
    if b == 0 {
        a
    } else {
        a % b
    }
}

pub fn exec_imm_u32(i: &Immediate) -> (r: u32)
    ensures
        r == imm_u32(*i),
{
    if i.0 >= 0 {
        i.0 as u32
    } else {
        ((i.0 as i64) + 0x1_0000_0000) as u32
    }
}

pub fn exec_sll(a: u32, s: u32) -> (r: u32)
    ensures
        r == sll(a, s),
{
    proof {
        crate::bits::lemma_and_le(s, 0x1F);
    }
    a << (s & 0x1F)
}

pub fn exec_srl(a: u32, s: u32) -> (r: u32)
    ensures
        r == srl(a, s),
{
    proof {
        crate::bits::lemma_and_le(s, 0x1F);
    }
    a >> (s & 0x1F)
}

pub fn exec_sra(a: u32, s: u32) -> (r: u32)
    ensures
        r == sra(a, s),
{
    proof {
        crate::bits::lemma_and_le(s, 0x1F);
    }
    if a < 0x8000_0000 {
        a >> (s & 0x1F)
    } else {
        !((!a) >> (s & 0x1F))
    }
}

pub fn exec_slt(a: u32, b: u32) -> (r: u32)
    ensures
        r == slt(a, b),
{
    let a_neg = a >= 0x8000_0000;
    let b_neg = b >= 0x8000_0000;
    let lt = if a_neg != b_neg {
        a_neg
    } else {
        a < b
    };
    if lt {
        1
    } else {
        0
    }
}

/// Magnitude of the signed value a word holds.
fn magnitude(a: u32) -> (r: u32)
    ensures
        r as int == abs(to_signed(a)),
{
    if a >= 0x8000_0000 {
        0u32.wrapping_sub(a)
    } else {
        a
    }
}

/// The word holding `q` or `-q`.
fn signed_word(q: u32, negative: bool) -> (r: u32)
    ensures
        r == from_int(if negative { -(q as int) } else { q as int }),
{
    if negative {
        let r = 0u32.wrapping_sub(q);
        r
    } else {
        q
    }
}

pub fn exec_mul(a: u32, b: u32) -> (r: u32)
    ensures
        r == mul_lo(a, b),
{
    a.wrapping_mul(b)
}

fn exec_high_word(p: i128) -> (r: u32)
    requires
        -0x1_0000_0000 * 0x1_0000_0000 <= p < 0x1_0000_0000 * 0x1_0000_0000,
    ensures
        r == high_word(p as int),
{
    let biased: i128 = p + 0x1_0000_0000_0000_0000;
    let u = biased as u128;
    let hi = (u / 0x1_0000_0000) % 0x1_0000_0000;
    proof {
        assert((p as int + 0x1_0000_0000 * 0x1_0000_0000) / 0x1_0000_0000 == p as int / 0x1_0000_0000 + 0x1_0000_0000) by {
            vstd::arithmetic::div_mod::lemma_hoist_over_denominator(p as int, 0x1_0000_0000, 0x1_0000_0000nat);
        }
        vstd::arithmetic::div_mod::lemma_mod_add_multiples_vanish(p as int / 0x1_0000_0000, 0x1_0000_0000);
    }
    hi as u32
}

fn signed_value(a: u32) -> (r: i128)
    ensures
        r as int == to_signed(a),
{
    if a >= 0x8000_0000 {
        (a as i128) - 0x1_0000_0000
    } else {
        a as i128
    }
}

pub fn exec_mulh(a: u32, b: u32) -> (r: u32)
    ensures
        r == mulh(a, b),
{
    let x = signed_value(a);
    let y = signed_value(b);
    assert(-0x4000_0000_0000_0000 <= x * y <= 0x4000_0000_0000_0000) by (nonlinear_arith)
        requires
            -0x8000_0000 <= x <= 0x7FFF_FFFF,
            -0x8000_0000 <= y <= 0x7FFF_FFFF,
    ;
    exec_high_word(x * y)
}

pub fn exec_mulhsu(a: u32, b: u32) -> (r: u32)
    ensures
        r == mulhsu(a, b),
{
    let x = signed_value(a);
    let y = b as i128;
    assert(-0x8000_0000_0000_0000 <= x * y <= 0x8000_0000_0000_0000) by (nonlinear_arith)
        requires
            -0x8000_0000 <= x <= 0x7FFF_FFFF,
            0 <= y <= 0xFFFF_FFFF,
    ;
    exec_high_word(x * y)
}

pub fn exec_mulhu(a: u32, b: u32) -> (r: u32)
    ensures
        r == mulhu(a, b),
{
    let x = a as i128;
    let y = b as i128;
    assert(0 <= x * y <= 0xFFFF_FFFF_FFFF_FFFF) by (nonlinear_arith)
        requires
            0 <= x <= 0xFFFF_FFFF,
            0 <= y <= 0xFFFF_FFFF,
    ;
    exec_high_word(x * y)
}

pub fn exec_div(a: u32, b: u32) -> (r: u32)
    ensures
        r == div_s(a, b),
{
    if b == 0 {
        0xFFFF_FFFF
    } else if a == 0x8000_0000 && b == 0xFFFF_FFFF {
        0x8000_0000
    } else {
        let q = magnitude(a) / magnitude(b);
        signed_word(q, (a >= 0x8000_0000) != (b >= 0x8000_0000))
    }
}

pub fn exec_divu(a: u32, b: u32) -> (r: u32)
    ensures
        r == div_u(a, b),
{
    if b == 0 {
        0xFFFF_FFFF
    } else {
        a / b
    }
}

pub fn exec_rem(a: u32, b: u32) -> (r: u32)
    ensures
        r == rem_s(a, b),
{
    if b == 0 {
        a
    } else if a == 0x8000_0000 && b == 0xFFFF_FFFF {
        0
    } else {
        let m = magnitude(a) % magnitude(b);
        signed_word(m, a >= 0x8000_0000)
    }
}

pub fn exec_remu(a: u32, b: u32) -> (r: u32)
    ensures
        r == rem_u(a, b),
{
    if b == 0 {
        a
    } else {
        a % b
    }
}

} // verus!
