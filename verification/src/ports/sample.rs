//! Normalised audio samples.
//!
//! A sample is kept as the bit pattern of an IEEE-754 binary32 number, so the
//! engine can produce and consume samples with integer arithmetic alone. The
//! number a pattern stands for is described by `scaled_value`: the number
//! multiplied by 2^149, which is an integer for every finite binary32 number.

use vstd::prelude::*;
use vstd::arithmetic::div_mod::{
    lemma_basic_div, lemma_div_denominator, lemma_div_multiples_vanish, lemma_div_pos_is_pos,
    lemma_multiply_divide_lt,
};
use vstd::arithmetic::power2::{
    lemma2_to64, lemma_pow2_adds, lemma_pow2_pos, lemma_pow2_strictly_increases,
    lemma_pow2_unfold, pow2,
};

verus! {

/// The sign bit of a binary32 pattern.
pub open spec fn sign_of(bits: u32) -> bool {
    bits >= 0x8000_0000
}

/// The biased exponent field (8 bits) of a binary32 pattern.
pub open spec fn exponent_of(bits: u32) -> nat {
    ((bits as nat) / 0x80_0000) % 256
}

/// The fraction field (23 bits) of a binary32 pattern.
pub open spec fn fraction_of(bits: u32) -> nat {
    (bits as nat) % 0x80_0000
}

/// The pattern is a NaN.
pub open spec fn is_nan(bits: u32) -> bool {
    exponent_of(bits) == 255 && fraction_of(bits) != 0
}

/// The pattern is neither an infinity nor a NaN.
pub open spec fn is_finite(bits: u32) -> bool {
    exponent_of(bits) != 255
}

/// The significand of a pattern: the fraction field, with the implicit
/// leading one for a normal number.
pub open spec fn significand_of(bits: u32) -> nat {
    if exponent_of(bits) == 0 {
        fraction_of(bits)
    } else {
        0x80_0000 + fraction_of(bits)
    }
}

/// The absolute value of the number, multiplied by 2^149. For the infinities
/// and NaNs the same formula gives a number of at least 2^277.
pub open spec fn magnitude(bits: u32) -> nat {
    if exponent_of(bits) == 0 {
        fraction_of(bits)
    } else {
        significand_of(bits) * pow2((exponent_of(bits) - 1) as nat)
    }
}

/// The number, multiplied by 2^149.
pub open spec fn scaled_value(bits: u32) -> int {
    if sign_of(bits) {
        -(magnitude(bits) as int)
    } else {
        magnitude(bits) as int
    }
}

/// 1.0 on the scale of `scaled_value`.
pub open spec fn unit() -> nat {
    pow2(149)
}

/// One step of a 16-bit quantiser on the scale of `scaled_value`: 2^-15.
pub open spec fn q15_step() -> nat {
    pow2(134)
}

/// `bits` is the binary32 number `v / 32768`, and +0.0 where `v` is 0.
pub open spec fn encodes_q15(bits: u32, v: int) -> bool {
    &&& is_finite(bits)
    &&& scaled_value(bits) == v * q15_step()
    &&& (v == 0 ==> bits == 0)
}

/// `bits` is the binary32 number `num / 2^den_log2`, and +0.0 where `num`
/// is 0.
pub open spec fn is_quotient(bits: u32, num: int, den_log2: nat) -> bool {
    &&& is_finite(bits)
    &&& scaled_value(bits) * pow2(den_log2) == num * unit()
    &&& (num == 0 ==> bits == 0)
}

/// Division that rounds towards zero.
pub open spec fn trunc_div(x: int, d: int) -> int {
    if x >= 0 {
        x / d
    } else {
        -((-x) / d)
    }
}

/// The number limited to [-1.0, 1.0], on the scale of `scaled_value`; a NaN
/// counts as -1.0.
pub open spec fn clamped_scaled(bits: u32) -> int {
    if is_nan(bits) {
        -(unit() as int)
    } else if scaled_value(bits) > unit() {
        unit() as int
    } else if scaled_value(bits) < -(unit() as int) {
        -(unit() as int)
    } else {
        scaled_value(bits)
    }
}

/// The 16-bit PCM value of a sample: the number limited to [-1.0, 1.0],
/// multiplied by 32768, rounded towards zero and limited to the range of a
/// signed 16-bit integer.
pub open spec fn pcm16_of(bits: u32) -> int {
    let t = trunc_div(clamped_scaled(bits), q15_step() as int);
    if t > 32767 {
        32767
    } else {
        t
    }
}

/// One normalised audio sample: the bit pattern of a binary32 number.
#[derive(Clone, Copy, Debug, PartialEq, Eq, Structural)]
pub struct Sample {
    pub bits: u32,
}

impl Sample {
    /// The sample with the given bit pattern.
    pub fn from_bits(bits: u32) -> (s: Sample)
        ensures
            s.bits == bits,
    {
        Sample { bits }
    }

    /// The bit pattern of the sample.
    pub fn to_bits(&self) -> (bits: u32)
        ensures
            bits == self.bits,
    {
        self.bits
    }

    /// The sample `v / 2^den_log2`, exactly. Every integer of fewer than
    /// 25 bits divided by such a power of two is a binary32 number.
    pub fn from_quotient(v: i32, den_log2: u32) -> (s: Sample)
        requires
            -0x100_0000 < v < 0x100_0000,
            den_log2 <= 126,
        ensures
            is_quotient(s.bits, v as int, den_log2 as nat),
            scaled_value(s.bits) == v * pow2((149 - den_log2) as nat),
            sign_of(s.bits) == (v < 0),
    {
        let ghost whole: nat = (149 - den_log2) as nat;
        proof {
            lemma_pow2_adds(whole, den_log2 as nat);
        }
        if v == 0 {
            proof {
                lemma_fields_of(0, false, 0, 0);
                assert(scaled_value(0u32) == 0);
                assert(0 * pow2(den_log2 as nat) == 0 && 0 * pow2(whole) == 0 && 0 * unit() == 0)
                    by (nonlinear_arith);
            }
            return Sample { bits: 0 };
        }
        let negative = v < 0;
        let a: u32 = if negative {
            (0 - v) as u32
        } else {
            v as u32
        };
        let top: u32 = 150 - den_log2;
        let mut m: u32 = a;
        let mut e: u32 = top;
        proof {
            lemma2_to64();
        }
        while m < 0x80_0000
            invariant
                1 <= a < 0x100_0000,
                1 <= m < 0x100_0000,
                24 <= top <= 150,
                top - 23 <= e <= top,
                m >= pow2((top - e) as nat),
                m * pow2((e - 1) as nat) == a * pow2((top - 1) as nat),
            decreases e,
        {
            proof {
                let k = (top - e) as nat;
                if e == top - 23 {
                    lemma2_to64();
                    assert(pow2(23) == 0x80_0000);
                    assert(false);
                }
                lemma_pow2_unfold(k + 1);
                lemma_pow2_unfold((e - 1) as nat);
                let p = pow2((e - 2) as nat);
                assert((m * 2) * p == m * (2 * p)) by (nonlinear_arith);
            }
            m = m * 2;
            e = e - 1;
        }
        let sign: u32 = if negative {
            0x8000_0000
        } else {
            0
        };
        let bits: u32 = sign + e * 0x80_0000 + (m - 0x80_0000);
        proof {
            let step = pow2(whole) as int;
            let den = pow2(den_log2 as nat) as int;
            lemma_fields_of(bits, negative, e as nat, (m - 0x80_0000) as nat);
            assert(magnitude(bits) == a * step);
            if negative {
                assert(a == -v);
                assert(-((a * step) as int) == v * step) by (nonlinear_arith)
                    requires
                        a == -v,
                ;
            }
            assert(scaled_value(bits) == v * step);
            assert((v * step) * den == v * (step * den)) by (nonlinear_arith);
        }
        Sample { bits }
    }

    /// The sample `v / 32768`, exactly.
    pub fn from_q15(v: i32) -> (s: Sample)
        requires
            -0x100_0000 < v < 0x100_0000,
        ensures
            encodes_q15(s.bits, v as int),
            sign_of(s.bits) == (v < 0),
    {
        Sample::from_quotient(v, 15)
    }

    /// The 16-bit PCM value of the sample.
    pub fn to_pcm16(&self) -> (r: i16)
        ensures
            r == pcm16_of(self.bits),
    {
        let bits = self.bits;
        let negative = bits >= 0x8000_0000;
        let e: u32 = (bits / 0x80_0000) % 256;
        let f: u32 = bits % 0x80_0000;
        proof {
            lemma2_to64();
            lemma_pow2_pos(134);
        }
        if e == 255 && f != 0 {
            proof {
                lemma_unit_quantises();
            }
            return -32768;
        }
        if e >= 127 {
            proof {
                lemma_unit_quantises();
                lemma_magnitude_at_least_unit(bits);
            }
            return if negative {
                -32768
            } else {
                32767
            };
        }
        if e < 112 {
            proof {
                lemma_magnitude_below_step(bits);
                lemma_magnitude_below_unit(bits);
                lemma_basic_div(magnitude(bits) as int, q15_step() as int);
            }
            return 0;
        }
        let m: u32 = 0x80_0000 + f;
        let shift: u32 = 135 - e;
        let q: u32 = m >> shift;
        proof {
            lemma_magnitude_below_unit(bits);
            lemma_quantise_normal(bits);
            vstd::bits::lemma_u32_shr_is_div(m, shift);
            if shift > 9 {
                lemma_pow2_strictly_increases(9, shift as nat);
            }
            assert(pow2(shift as nat) >= 512);
            assert(q == m as int / pow2(shift as nat) as int);
            lemma_div_bound(m as int, pow2(shift as nat) as int);
        }
        if negative {
            -(q as i16)
        } else {
            q as i16
        }
    }
}

/// A pattern put together from a sign, an exponent field and a fraction field
/// has those fields.
proof fn lemma_fields_of(bits: u32, negative: bool, e: nat, f: nat)
    requires
        e < 256,
        f < 0x80_0000,
        bits == (if negative { 0x8000_0000nat } else { 0nat }) + e * 0x80_0000 + f,
    ensures
        sign_of(bits) == negative,
        exponent_of(bits) == e,
        fraction_of(bits) == f,
{
}

/// A significand shifted right by nine places or more lies below 2^15.
proof fn lemma_div_bound(x: int, d: int)
    requires
        0 <= x < 0x100_0000,
        d >= 512,
    ensures
        0 <= x / d < 0x8000,
{
    assert(x < d * 0x8000) by (nonlinear_arith)
        requires
            x < 0x100_0000,
            d >= 512,
    ;
    lemma_multiply_divide_lt(x, d, 0x8000);
    lemma_div_pos_is_pos(x, d);
}

/// 1.0 quantises to 32768 steps.
proof fn lemma_unit_quantises()
    ensures
        unit() as int / q15_step() as int == 32768,
        unit() == 32768 * q15_step(),
        q15_step() > 0,
{
    lemma2_to64();
    lemma_pow2_adds(134, 15);
    lemma_pow2_pos(134);
    let s = pow2(134) as int;
    assert(pow2(149) == pow2(15) * s) by (nonlinear_arith)
        requires
            pow2(149) == pow2(134) * pow2(15),
            s == pow2(134),
    ;
    lemma_div_multiples_vanish(32768, s);
}

/// A pattern whose exponent field is at least 127 has a magnitude of at
/// least 1.0.
proof fn lemma_magnitude_at_least_unit(bits: u32)
    requires
        exponent_of(bits) >= 127,
    ensures
        magnitude(bits) >= unit(),
{
    let e = exponent_of(bits);
    let m = significand_of(bits);
    lemma2_to64();
    lemma_pow2_adds(23, 126);
    if e > 127 {
        lemma_pow2_strictly_increases(126, (e - 1) as nat);
    }
    let p = pow2((e - 1) as nat);
    let p0 = pow2(126);
    assert(m * p >= 0x80_0000 * p0) by (nonlinear_arith)
        requires
            m >= 0x80_0000,
            p >= p0,
            p0 >= 0,
    ;
}

/// A pattern whose exponent field is below 127 has a magnitude below 1.0.
proof fn lemma_magnitude_below_unit(bits: u32)
    requires
        exponent_of(bits) < 127,
    ensures
        magnitude(bits) < unit(),
{
    let e = exponent_of(bits);
    let m = significand_of(bits);
    lemma2_to64();
    lemma_pow2_adds(24, 125);
    lemma_pow2_pos(149);
    if e == 0 {
        lemma_pow2_strictly_increases(23, 149);
    } else {
        if e < 126 {
            lemma_pow2_strictly_increases((e - 1) as nat, 125);
        }
        let p = pow2((e - 1) as nat);
        let p0 = pow2(125);
        lemma_pow2_pos((e - 1) as nat);
        assert(m * p < 0x100_0000 * p0) by (nonlinear_arith)
            requires
                m < 0x100_0000,
                0 < p <= p0,
        ;
    }
}

/// A pattern whose exponent field is below 112 has a magnitude below one
/// quantiser step.
proof fn lemma_magnitude_below_step(bits: u32)
    requires
        exponent_of(bits) < 112,
    ensures
        magnitude(bits) < q15_step(),
{
    let e = exponent_of(bits);
    let m = significand_of(bits);
    lemma2_to64();
    lemma_pow2_adds(24, 110);
    if e == 0 {
        lemma_pow2_strictly_increases(23, 134);
    } else {
        if e < 111 {
            lemma_pow2_strictly_increases((e - 1) as nat, 110);
        }
        let p = pow2((e - 1) as nat);
        let p0 = pow2(110);
        lemma_pow2_pos((e - 1) as nat);
        assert(m * p < 0x100_0000 * p0) by (nonlinear_arith)
            requires
                m < 0x100_0000,
                0 < p <= p0,
        ;
    }
}

/// For an exponent field from 112 to 126, the magnitude in quantiser steps is
/// the significand shifted right by 135 minus the exponent field.
proof fn lemma_quantise_normal(bits: u32)
    requires
        112 <= exponent_of(bits) <= 126,
    ensures
        magnitude(bits) as int / q15_step() as int == significand_of(bits) as int / pow2(
            (135 - exponent_of(bits)) as nat,
        ) as int,
{
    let e = exponent_of(bits);
    let m = significand_of(bits) as int;
    let a = pow2((e - 1) as nat) as int;
    let b = pow2((135 - e) as nat) as int;
    lemma_pow2_adds((e - 1) as nat, (135 - e) as nat);
    lemma_pow2_pos((e - 1) as nat);
    lemma_pow2_pos((135 - e) as nat);
    assert(pow2(134) == a * b);
    lemma_div_denominator(m * a, a, b);
    lemma_div_multiples_vanish(m, a);
}

/// The magnitude of a pattern lies between two neighbouring powers of two
/// that its exponent field fixes.
proof fn lemma_magnitude_bounds(bits: u32)
    ensures
        exponent_of(bits) == 0 ==> magnitude(bits) < pow2(23),
        exponent_of(bits) > 0 ==> pow2(exponent_of(bits) + 22) <= magnitude(bits) < pow2(
            exponent_of(bits) + 23,
        ),
{
    let e = exponent_of(bits);
    let m = significand_of(bits);
    lemma2_to64();
    if e > 0 {
        let p = pow2((e - 1) as nat);
        lemma_pow2_pos((e - 1) as nat);
        lemma_pow2_adds(23, (e - 1) as nat);
        lemma_pow2_adds(24, (e - 1) as nat);
        assert(0x80_0000 * p <= m * p < 0x100_0000 * p) by (nonlinear_arith)
            requires
                0x80_0000 <= m < 0x100_0000,
                p > 0,
        ;
    }
}

/// Two patterns of the same sign that stand for the same number are the
/// same pattern.
pub proof fn lemma_pattern_unique(b1: u32, b2: u32)
    requires
        sign_of(b1) == sign_of(b2),
        scaled_value(b1) == scaled_value(b2),
    ensures
        b1 == b2,
{
    let e1 = exponent_of(b1);
    let e2 = exponent_of(b2);
    lemma_magnitude_bounds(b1);
    lemma_magnitude_bounds(b2);
    assert(magnitude(b1) == magnitude(b2));
    if e1 < e2 {
        lemma_pow2_pos(23);
        if e1 + 23 < e2 + 22 {
            lemma_pow2_strictly_increases(e1 + 23, e2 + 22);
        }
        if e1 == 0 {
            lemma_pow2_strictly_increases(23, e2 + 22);
        }
        assert(false);
    }
    if e2 < e1 {
        if e2 + 23 < e1 + 22 {
            lemma_pow2_strictly_increases(e2 + 23, e1 + 22);
        }
        if e2 == 0 {
            lemma_pow2_strictly_increases(23, e1 + 22);
        }
        assert(false);
    }
    if e1 > 0 {
        let p = pow2((e1 - 1) as nat);
        let m1 = significand_of(b1);
        let m2 = significand_of(b2);
        lemma_pow2_pos((e1 - 1) as nat);
        assert(m1 == m2) by (nonlinear_arith)
            requires
                m1 * p == m2 * p,
                p > 0,
        ;
    }
    assert(fraction_of(b1) == fraction_of(b2));
}

/// At most one pattern is `v / 32768`: the conversions that promise
/// `encodes_q15` promise one result.
pub proof fn lemma_q15_unique(b1: u32, b2: u32, v: int)
    requires
        encodes_q15(b1, v),
        encodes_q15(b2, v),
    ensures
        b1 == b2,
{
    lemma_pow2_pos(134);
    if v != 0 {
        let s = q15_step() as int;
        assert(v * s != 0 && (v * s < 0 <==> v < 0)) by (nonlinear_arith)
            requires
                v != 0,
                s > 0,
        ;
        lemma_pattern_unique(b1, b2);
    }
}

/// `v / 32768` is the quotient of `v` by 2^15.
pub proof fn lemma_q15_is_quotient(bits: u32, v: int)
    requires
        encodes_q15(bits, v),
    ensures
        is_quotient(bits, v, 15),
{
    lemma_pow2_adds(134, 15);
    let s = pow2(134) as int;
    let a = pow2(15) as int;
    assert((v * s) * a == v * (s * a)) by (nonlinear_arith);
}

/// At most one pattern is `num / 2^den_log2`: the conversions that promise
/// `is_quotient` promise one result.
pub proof fn lemma_quotient_unique(b1: u32, b2: u32, num: int, den_log2: nat)
    requires
        is_quotient(b1, num, den_log2),
        is_quotient(b2, num, den_log2),
    ensures
        b1 == b2,
{
    lemma_pow2_pos(den_log2);
    lemma_pow2_pos(149);
    if num != 0 {
        let d = pow2(den_log2) as int;
        let u = unit() as int;
        let x1 = scaled_value(b1);
        let x2 = scaled_value(b2);
        assert(x1 == x2 && x1 != 0 && (x1 < 0 <==> num < 0)) by (nonlinear_arith)
            requires
                x1 * d == num * u,
                x2 * d == num * u,
                d > 0,
                u > 0,
                num != 0,
        ;
        lemma_pattern_unique(b1, b2);
    }
}

/// A quotient whose numerator lies in [-2^den_log2, 2^den_log2) lies in
/// [-1.0, 1.0).
pub proof fn lemma_quotient_in_unit_range(bits: u32, num: int, den_log2: nat)
    requires
        is_quotient(bits, num, den_log2),
        -(pow2(den_log2) as int) <= num < pow2(den_log2),
    ensures
        -(unit() as int) <= scaled_value(bits) < unit(),
{
    lemma_pow2_pos(den_log2);
    lemma_pow2_pos(149);
    let d = pow2(den_log2) as int;
    let u = unit() as int;
    let x = scaled_value(bits);
    assert(-u <= x < u) by (nonlinear_arith)
        requires
            x * d == num * u,
            -d <= num < d,
            d > 0,
            u > 0,
    ;
}

/// The quotient of `v` by 2^15 is `v / 32768`.
pub proof fn lemma_quotient_is_q15(bits: u32, v: int)
    requires
        is_quotient(bits, v, 15),
    ensures
        encodes_q15(bits, v),
{
    lemma2_to64();
    lemma_pow2_adds(134, 15);
    lemma_pow2_pos(134);
    let s = pow2(134) as int;
    let x = scaled_value(bits);
    assert(x * 32768 == (v * s) * 32768 ==> x == v * s);
    assert(v * (s * 32768) == (v * s) * 32768) by (nonlinear_arith);
}

/// A 16-bit value divided by 32768 lies in [-1.0, 1.0).
pub proof fn lemma_q15_in_unit_range(bits: u32, v: int)
    requires
        encodes_q15(bits, v),
        -32768 <= v <= 32767,
    ensures
        -(unit() as int) <= scaled_value(bits) < unit(),
{
    lemma_unit_quantises();
    let s = q15_step() as int;
    assert(-32768 * s <= v * s < 32768 * s) by (nonlinear_arith)
        requires
            -32768 <= v <= 32767,
            s > 0,
    ;
}

/// Quantising `v / 32768` to 16 bits gives `v` back.
pub proof fn lemma_q15_round_trip(bits: u32, v: int)
    requires
        encodes_q15(bits, v),
        -32768 <= v <= 32767,
    ensures
        pcm16_of(bits) == v,
{
    lemma_q15_in_unit_range(bits, v);
    lemma_unit_quantises();
    let s = q15_step() as int;
    if v >= 0 {
        assert(v * s == s * v && v * s >= 0) by (nonlinear_arith)
            requires
                v >= 0,
                s > 0,
        ;
        lemma_div_multiples_vanish(v, s);
    } else {
        assert(-(v * s) == s * (-v) && v * s < 0) by (nonlinear_arith)
            requires
                v < 0,
                s > 0,
        ;
        lemma_div_multiples_vanish(-v, s);
    }
}

} // verus!
