//! Arithmetic and comparison helpers with exact 32-bit two's-complement
//! semantics: overflow wraps and never traps, comparisons come in signed
//! and unsigned form, shifts use only the low five bits of the amount,
//! and division follows the RV32M convention of defined, non-trapping
//! behaviour on division by zero.

use vstd::prelude::*;
use vstd::arithmetic::div_mod::{
    lemma_add_mod_noop, lemma_fundamental_div_mod, lemma_fundamental_div_mod_converse_div,
    lemma_mod_add_multiples_vanish, lemma_multiply_divide_lt, lemma_small_mod, lemma_sub_mod_noop,
};
use vstd::arithmetic::power2::lemma2_to64;
use vstd::bits::lemma_u64_shr_is_div;

verus! {

/// The signed value a 32-bit word encodes, in two's complement.
pub open spec fn to_signed(a: u32) -> int {
    if a >= 0x8000_0000 {
        a - 0x1_0000_0000
    } else {
        a as int
    }
}

/// The 32-bit word that encodes an integer, modulo 2^32.
pub open spec fn to_u32(x: int) -> u32 {
    (x % 0x1_0000_0000) as u32
}

/// The magnitude of the signed value a word encodes, as an integer in
/// 0..=2^31.
pub open spec fn spec_mag(a: u32) -> int {
    if a >= 0x8000_0000 {
        0x1_0000_0000 - a
    } else {
        a as int
    }
}

/// Addition with 32-bit wraparound: the stored result of `add`/`addi` is
/// `(a + b) mod 2^32`.
pub open spec fn spec_add(a: u32, b: u32) -> u32 {
    to_u32(a + b)
}

/// Subtraction with 32-bit wraparound.
pub open spec fn spec_sub(a: u32, b: u32) -> u32 {
    to_u32(a - b)
}

/// The low 32 bits of the product.
pub open spec fn spec_mul(a: u32, b: u32) -> u32 {
    to_u32(a * b)
}

/// The high 32 bits of the unsigned 64-bit product.
pub open spec fn spec_mulhu(a: u32, b: u32) -> u32 {
    ((a * b) / 0x1_0000_0000) as u32
}

/// The high 32 bits of the signed 64-bit product.  Written through the
/// standard correction of the unsigned high word: interpreting `a` as
/// signed subtracts `2^32 * b` from the product exactly when `a`'s sign
/// bit is set, which lowers the high word by `b` modulo 2^32; likewise
/// for `b`.
pub open spec fn spec_mulh(a: u32, b: u32) -> u32 {
    let h = spec_mulhu(a, b);
    let h1 = if a >= 0x8000_0000 {
        spec_sub(h, b)
    } else {
        h
    };
    if b >= 0x8000_0000 {
        spec_sub(h1, a)
    } else {
        h1
    }
}

/// The high 32 bits of the product of signed `a` and unsigned `b`.
pub open spec fn spec_mulhsu(a: u32, b: u32) -> u32 {
    let h = spec_mulhu(a, b);
    if a >= 0x8000_0000 {
        spec_sub(h, b)
    } else {
        h
    }
}

/// Truncated (toward zero) signed quotient, on integers.
pub open spec fn spec_trunc_div(x: int, y: int) -> int
    recommends
        y != 0,
{
    let q = (vstd::math::abs(x) / vstd::math::abs(y)) as int;
    if (x < 0) != (y < 0) {
        -q
    } else {
        q
    }
}

/// Truncated signed remainder: the sign follows the dividend.
pub open spec fn spec_trunc_rem(x: int, y: int) -> int
    recommends
        y != 0,
{
    let m = (vstd::math::abs(x) % vstd::math::abs(y)) as int;
    if x < 0 {
        -m
    } else {
        m
    }
}

/// Signed division, RV32M convention: division by zero yields all ones
/// (-1); the most-negative-by-minus-one case wraps back to the most
/// negative value through the encoding.
pub open spec fn spec_div(a: u32, b: u32) -> u32 {
    if b == 0 {
        0xffff_ffffu32
    } else {
        to_u32(spec_trunc_div(to_signed(a), to_signed(b)))
    }
}

/// Unsigned division, RV32M convention: division by zero yields all ones.
pub open spec fn spec_divu(a: u32, b: u32) -> u32 {
    if b == 0 {
        0xffff_ffffu32
    } else {
        (a as int / b as int) as u32
    }
}

/// Signed remainder, RV32M convention: remainder by zero yields the
/// dividend.
pub open spec fn spec_rem(a: u32, b: u32) -> u32 {
    if b == 0 {
        a
    } else {
        to_u32(spec_trunc_rem(to_signed(a), to_signed(b)))
    }
}

/// Unsigned remainder, RV32M convention: remainder by zero yields the
/// dividend.
pub open spec fn spec_remu(a: u32, b: u32) -> u32 {
    if b == 0 {
        a
    } else {
        (a as int % b as int) as u32
    }
}

/// Logical left shift by the low five bits of `b`.
pub open spec fn spec_sll(a: u32, b: u32) -> u32 {
    a << (b % 32)
}

/// Logical right shift by the low five bits of `b`.
pub open spec fn spec_srl(a: u32, b: u32) -> u32 {
    a >> (b % 32)
}

/// Arithmetic right shift by the low five bits of `b`: the sign bit fills
/// the vacated positions.
pub open spec fn spec_sra(a: u32, b: u32) -> u32 {
    let sh = b % 32;
    if sh == 0 {
        a
    } else if a >= 0x8000_0000 {
        (a >> sh) | (0xffff_ffffu32 << (32 - sh))
    } else {
        a >> sh
    }
}

/// Signed set-less-than: 1 if `a` is less than `b` as signed values.
pub open spec fn spec_slt(a: u32, b: u32) -> u32 {
    if to_signed(a) < to_signed(b) {
        1u32
    } else {
        0u32
    }
}

/// Unsigned set-less-than.
pub open spec fn spec_sltu(a: u32, b: u32) -> u32 {
    if a < b {
        1u32
    } else {
        0u32
    }
}

/// Sign-extension of a byte value to 32 bits.
pub open spec fn spec_sext8(v: u32) -> u32 {
    if v & 0x80 != 0 {
        v | 0xffff_ff00
    } else {
        v
    }
}

/// Sign-extension of a halfword value to 32 bits.
pub open spec fn spec_sext16(v: u32) -> u32 {
    if v & 0x8000 != 0 {
        v | 0xffff_0000
    } else {
        v
    }
}

/// Law: `add`/`addi` store exactly the 32-bit unsigned sum modulo 2^32;
/// overflow wraps silently, so adding 1 to `0x7fff_ffff` stores
/// `0x8000_0000`.
pub proof fn lemma_add_is_modular(a: u32, b: u32)
    ensures
        spec_add(a, b) as int == (a as int + b as int) % 0x1_0000_0000,
        spec_add(0x7fff_ffffu32, 1u32) == 0x8000_0000u32,
{
    lemma_small_mod(0x8000_0000nat, 0x1_0000_0000nat);
}

/// Law: addition composes with the encoding of integers — adding the
/// word that encodes `m` yields the word that encodes `a + m`.  Chained
/// `addi` with negative immediates therefore tracks exact integer
/// subtraction, modulo 2^32.
pub proof fn lemma_add_encodes_int_sum(a: u32, m: int)
    ensures
        spec_add(a, to_u32(m)) == to_u32(a + m),
{
    lemma_add_mod_noop(a as int, m, 0x1_0000_0000);
    lemma_small_mod(a as nat, 0x1_0000_0000nat);
}

/// Law: an `addi` with a negative immediate `-n` on a register holding
/// `a >= n` stores exactly `a - n`, the two's-complement subtraction.
pub proof fn lemma_addi_negative(a: u32, n: u32)
    requires
        n <= a,
    ensures
        spec_add(a, to_u32(-(n as int))) == a - n,
{
    lemma_add_encodes_int_sum(a, -(n as int));
    lemma_small_mod((a - n) as nat, 0x1_0000_0000nat);
}

/// Wrapping 32-bit addition.
pub fn add32(a: u32, b: u32) -> (r: u32)
    ensures
        r == spec_add(a, b),
{
    proof {
        if a + b >= 0x1_0000_0000 {
            lemma_mod_add_multiples_vanish(a + b - 0x1_0000_0000, 0x1_0000_0000);
            lemma_small_mod((a + b - 0x1_0000_0000) as nat, 0x1_0000_0000nat);
        } else {
            lemma_small_mod((a + b) as nat, 0x1_0000_0000nat);
        }
    }
    a.wrapping_add(b)
}

/// Wrapping 32-bit subtraction.
pub fn sub32(a: u32, b: u32) -> (r: u32)
    ensures
        r == spec_sub(a, b),
{
    proof {
        if a < b {
            lemma_mod_add_multiples_vanish(a - b, 0x1_0000_0000);
            lemma_small_mod((a - b + 0x1_0000_0000) as nat, 0x1_0000_0000nat);
        } else {
            lemma_small_mod((a - b) as nat, 0x1_0000_0000nat);
        }
    }
    a.wrapping_sub(b)
}

/// Low 32 bits of the product.
pub fn mul32(a: u32, b: u32) -> (r: u32)
    ensures
        r == spec_mul(a, b),
{
    a.wrapping_mul(b)
}

/// High 32 bits of the unsigned 64-bit product.
pub fn mulhu32(a: u32, b: u32) -> (r: u32)
    ensures
        r == spec_mulhu(a, b),
{
    proof {
        assert((a as int) * (b as int) < 0x1_0000_0000_0000_0000) by (nonlinear_arith)
            requires
                a < 0x1_0000_0000u64,
                b < 0x1_0000_0000u64;
    }
    let p: u64 = (a as u64) * (b as u64);
    proof {
        lemma_u64_shr_is_div(p, 32);
        lemma2_to64();
        lemma_multiply_divide_lt(p as int, 0x1_0000_0000, 0x1_0000_0000);
    }
    (p >> 32u64) as u32
}

/// High 32 bits of the signed 64-bit product.
pub fn mulh32(a: u32, b: u32) -> (r: u32)
    ensures
        r == spec_mulh(a, b),
{
    let h = mulhu32(a, b);
    let h1 = if a >= 0x8000_0000 {
        sub32(h, b)
    } else {
        h
    };
    if b >= 0x8000_0000 {
        sub32(h1, a)
    } else {
        h1
    }
}

/// High 32 bits of the product of signed `a` and unsigned `b`.
pub fn mulhsu32(a: u32, b: u32) -> (r: u32)
    ensures
        r == spec_mulhsu(a, b),
{
    let h = mulhu32(a, b);
    if a >= 0x8000_0000 {
        sub32(h, b)
    } else {
        h
    }
}

/// The magnitude of the signed value of `a`, as a 32-bit word.
fn mag32(a: u32) -> (r: u32)
    ensures
        r as int == spec_mag(a),
{
    if a >= 0x8000_0000 {
        proof {
            if a > 0x8000_0000 {
                lemma_mod_add_multiples_vanish(0 - a as int, 0x1_0000_0000);
                lemma_small_mod((0x1_0000_0000 - a) as nat, 0x1_0000_0000nat);
            }
        }
        0u32.wrapping_sub(a)
    } else {
        a
    }
}

/// The word encoding of `-q`, for `0 <= q <= 2^31`.
fn neg32(q: u32) -> (r: u32)
    requires
        q <= 0x8000_0000u32,
    ensures
        r == to_u32(-(q as int)),
{
    proof {
        if q > 0 {
            lemma_mod_add_multiples_vanish(0 - q as int, 0x1_0000_0000);
            lemma_small_mod((0x1_0000_0000 - q) as nat, 0x1_0000_0000nat);
        }
    }
    0u32.wrapping_sub(q)
}

/// Signed division, RV32M convention.
pub fn div32(a: u32, b: u32) -> (r: u32)
    ensures
        r == spec_div(a, b),
{
    if b == 0 {
        return 0xffff_ffffu32;
    }
    let ma = mag32(a);
    let mb = mag32(b);
    let q = ma / mb;
    proof {
        assert(spec_mag(a) == vstd::math::abs(to_signed(a)));
        assert(spec_mag(b) == vstd::math::abs(to_signed(b)));
    }
    if (a >= 0x8000_0000) != (b >= 0x8000_0000) {
        proof {
            lemma_multiply_divide_lt(ma as int, mb as int, 0x8000_0001);
        }
        neg32(q)
    } else {
        proof {
            lemma_small_mod(q as nat, 0x1_0000_0000nat);
        }
        q
    }
}

/// Unsigned division, RV32M convention.
pub fn divu32(a: u32, b: u32) -> (r: u32)
    ensures
        r == spec_divu(a, b),
{
    if b == 0 {
        0xffff_ffffu32
    } else {
        a / b
    }
}

/// Signed remainder, RV32M convention.
pub fn rem32(a: u32, b: u32) -> (r: u32)
    ensures
        r == spec_rem(a, b),
{
    if b == 0 {
        return a;
    }
    let ma = mag32(a);
    let mb = mag32(b);
    let m = ma % mb;
    proof {
        assert(spec_mag(a) == vstd::math::abs(to_signed(a)));
        assert(spec_mag(b) == vstd::math::abs(to_signed(b)));
    }
    if a >= 0x8000_0000 {
        neg32(m)
    } else {
        proof {
            lemma_small_mod(m as nat, 0x1_0000_0000nat);
        }
        m
    }
}

/// Unsigned remainder, RV32M convention.
pub fn remu32(a: u32, b: u32) -> (r: u32)
    ensures
        r == spec_remu(a, b),
{
    if b == 0 {
        a
    } else {
        a % b
    }
}

/// Logical left shift by the low five bits of `b`.
pub fn sll32(a: u32, b: u32) -> (r: u32)
    ensures
        r == spec_sll(a, b),
{
    a << (b % 32)
}

/// Logical right shift by the low five bits of `b`.
pub fn srl32(a: u32, b: u32) -> (r: u32)
    ensures
        r == spec_srl(a, b),
{
    a >> (b % 32)
}

/// Arithmetic right shift by the low five bits of `b`.
pub fn sra32(a: u32, b: u32) -> (r: u32)
    ensures
        r == spec_sra(a, b),
{
    let sh = b % 32;
    if sh == 0 {
        a
    } else if a >= 0x8000_0000 {
        (a >> sh) | (0xffff_ffffu32 << (32 - sh))
    } else {
        a >> sh
    }
}

/// Signed set-less-than.  Words with different sign bits order by sign;
/// words with equal sign bits order as unsigned values do.
pub fn slt32(a: u32, b: u32) -> (r: u32)
    ensures
        r == spec_slt(a, b),
{
    let sa = a >= 0x8000_0000;
    let sb = b >= 0x8000_0000;
    let lt = if sa == sb {
        a < b
    } else {
        sa
    };
    if lt {
        1
    } else {
        0
    }
}

/// Law: the staged form of `spec_mulh` is exactly the high word of the
/// 64-bit two's-complement product: the floor of `signed(a) * signed(b)`
/// divided by 2^32, encoded modulo 2^32.
pub proof fn lemma_mulh_is_signed_product_high(a: u32, b: u32)
    ensures
        spec_mulh(a, b) == to_u32((to_signed(a) * to_signed(b)) / 0x1_0000_0000),
{
    let m = 0x1_0000_0000int;
    let p = (a as int) * (b as int);
    assert(0 <= (a as int) * (b as int) < 0x1_0000_0000_0000_0000) by (nonlinear_arith)
        requires
            a < 0x1_0000_0000u64,
            b < 0x1_0000_0000u64;
    lemma_fundamental_div_mod(p, m);
    lemma_multiply_divide_lt(p, m, m);
    let h = p / m;
    let l = p % m;
    let s = to_signed(a) * to_signed(b);
    if a < 0x8000_0000 && b < 0x8000_0000 {
        lemma_small_mod(h as nat, m as nat);
    } else if a >= 0x8000_0000 && b < 0x8000_0000 {
        assert(s == (m * (h - b) + l)) by (nonlinear_arith)
            requires
                s == ((a as int) - m) * (b as int),
                p == (a as int) * (b as int),
                p == m * h + l;
        lemma_fundamental_div_mod_converse_div(s, m, h - b, l);
    } else if a < 0x8000_0000 && b >= 0x8000_0000 {
        assert(s == (m * (h - a) + l)) by (nonlinear_arith)
            requires
                s == (a as int) * ((b as int) - m),
                p == (a as int) * (b as int),
                p == m * h + l;
        lemma_fundamental_div_mod_converse_div(s, m, h - a, l);
    } else {
        assert(s == (m * (h - b - a + m) + l)) by (nonlinear_arith)
            requires
                s == ((a as int) - m) * ((b as int) - m),
                p == (a as int) * (b as int),
                p == m * h + l;
        lemma_fundamental_div_mod_converse_div(s, m, h - b - a + m, l);
        lemma_mod_add_multiples_vanish(h - b - a, m);
        lemma_sub_mod_noop(h - b, a as int, m);
        lemma_small_mod(a as nat, m as nat);
    }
}

/// Law: the staged form of `spec_mulhsu` is exactly the high word of the
/// product of `signed(a)` and unsigned `b`, encoded modulo 2^32.
pub proof fn lemma_mulhsu_is_signed_by_unsigned_high(a: u32, b: u32)
    ensures
        spec_mulhsu(a, b) == to_u32((to_signed(a) * b) / 0x1_0000_0000),
{
    let m = 0x1_0000_0000int;
    let p = (a as int) * (b as int);
    assert(0 <= (a as int) * (b as int) < 0x1_0000_0000_0000_0000) by (nonlinear_arith)
        requires
            a < 0x1_0000_0000u64,
            b < 0x1_0000_0000u64;
    lemma_fundamental_div_mod(p, m);
    lemma_multiply_divide_lt(p, m, m);
    let h = p / m;
    let l = p % m;
    let s = to_signed(a) * (b as int);
    if a < 0x8000_0000 {
        lemma_small_mod(h as nat, m as nat);
    } else {
        assert(s == (m * (h - b) + l)) by (nonlinear_arith)
            requires
                s == ((a as int) - m) * (b as int),
                p == (a as int) * (b as int),
                p == m * h + l;
        lemma_fundamental_div_mod_converse_div(s, m, h - b, l);
    }
}

/// Unsigned set-less-than.
pub fn sltu32(a: u32, b: u32) -> (r: u32)
    ensures
        r == spec_sltu(a, b),
{
    if a < b {
        1
    } else {
        0
    }
}

} // verus!
