//! Exact IEEE-754 single-precision encodings of small integers and halves.
//!
//! Every quantity the decoder produces is an integer or half-integer of
//! magnitude below 2^24, so it has an exact `f32` value.  The library keeps
//! such quantities as the 32-bit pattern of that `f32` (what
//! `f32::to_bits` returns); callers recover the float with `f32::from_bits`.

use vstd::prelude::*;
use vstd::arithmetic::power2::*;
use vstd::arithmetic::power::*;

verus! {

/// 2^23: the hidden bit of a normalized single-precision significand.
pub const HIDDEN_BIT: u32 = 0x80_0000;

/// Bit pattern of `0.5f32`.
pub const HALF_BITS: u32 = 0x3F00_0000;

/// Number of doublings that bring `a` (with `0 < a < 2^24`) into `[2^23, 2^24)`.
pub open spec fn norm_shift(a: int) -> int
    decreases 0x100_0000 - a,
{
    if a <= 0 || a >= 0x80_0000 {
        0
    } else {
        1 + norm_shift(2 * a)
    }
}

/// `a` doubled until it lies in `[2^23, 2^24)`: the significand with its hidden bit.
pub open spec fn normalized(a: int) -> int
    decreases 0x100_0000 - a,
{
    if a <= 0 || a >= 0x80_0000 {
        a
    } else {
        normalized(2 * a)
    }
}

/// Magnitude of an integer.
pub open spec fn abs(v: int) -> int {
    if v < 0 { -v } else { v }
}

/// The single-precision bit pattern of the integer `v` (`|v| < 2^24`):
/// sign bit, biased exponent `127 + 23 - shift`, and the 23 stored
/// significand bits of the normalized magnitude.
pub open spec fn f32_bits_of_int(v: int) -> u32 {
    if v == 0 {
        0
    } else {
        let a = abs(v);
        let sign: int = if v < 0 { 0x8000_0000 } else { 0 };
        (sign + (150 - norm_shift(a)) * 0x80_0000 + (normalized(a) - 0x80_0000)) as u32
    }
}

/// The single-precision bit pattern of `v / 2` (`|v| < 2^24`): the encoding
/// of `v` with its exponent lowered by one.
pub open spec fn f32_bits_of_half(v: int) -> u32 {
    if v == 0 {
        0
    } else {
        (f32_bits_of_int(v) - 0x80_0000) as u32
    }
}

/// `x` as an `f32` compared with the closed range `[0.0, 360.0]` (true for `-0.0`, false for NaN).
pub open spec fn f32_in_zero_to_360(bits: u32) -> bool {
    bits <= 0x43B4_0000 || bits == 0x8000_0000
}

/// `0.0 < x <= 90.0` for the `f32` with these bits.
pub open spec fn f32_in_open_zero_to_90(bits: u32) -> bool {
    1 <= bits <= 0x42B4_0000
}

proof fn lemma_normalized_range(a: int)
    requires
        0 < a < 0x100_0000,
    ensures
        0x80_0000 <= normalized(a) < 0x100_0000,
        normalized(a) == a * pow2(norm_shift(a) as nat),
        0 <= norm_shift(a) <= 23,
    decreases 0x100_0000 - a,
{
    if a < 0x80_0000 {
        lemma_normalized_range(2 * a);
        let s = norm_shift(2 * a);
        lemma_pow2_unfold((s + 1) as nat);
        assert(norm_shift(a) == s + 1);
        assert(pow2((s + 1) as nat) == 2 * pow2(s as nat));
        assert(2 * a * pow2(s as nat) == a * (2 * pow2(s as nat))) by (nonlinear_arith);
        assert(normalized(a) == normalized(2 * a));
    } else {
        lemma2_to64();
        assert(norm_shift(a) == 0);
        assert(pow2(0) == 1);
    }
    let s = norm_shift(a);
    lemma_pow2_pos(s as nat);
    assert(a * pow2(s as nat) >= pow2(s as nat)) by (nonlinear_arith)
        requires a >= 1, pow2(s as nat) > 0;
    lemma2_to64();
    if s > 24 {
        lemma_pow2_strictly_increases(24, s as nat);
    }
}

/// The bit pattern of the integer `v`, `|v| < 2^24`.
pub fn f32_bits_from_int(v: i32) -> (bits: u32)
    requires
        -0x100_0000 < v < 0x100_0000,
    ensures
        bits == f32_bits_of_int(v as int),
{
    if v == 0 {
        return 0;
    }
    let neg = v < 0;
    let a: u32 = if neg { (0 - v) as u32 } else { v as u32 };
    let mut m: u32 = a;
    let mut k: u32 = 0;
    proof {
        lemma_normalized_range(a as int);
    }
    while m < 0x80_0000
        invariant
            0 < m < 0x100_0000,
            normalized(m as int) == normalized(a as int),
            norm_shift(a as int) == k + norm_shift(m as int),
            k <= 23,
            0 <= norm_shift(m as int),
            norm_shift(a as int) <= 23,
        decreases 0x100_0000 - m,
    {
        proof {
            lemma_normalized_range(m as int);
        }
        m = m * 2;
        k = k + 1;
        proof {
            lemma_normalized_range(m as int);
        }
    }
    let sign: u32 = if neg { 0x8000_0000 } else { 0 };
    sign + (150 - k) * 0x80_0000 + (m - 0x80_0000)
}

/// The bit pattern of `v / 2`, `|v| < 2^24`.
pub fn f32_bits_from_half(v: i32) -> (bits: u32)
    requires
        -0x100_0000 < v < 0x100_0000,
    ensures
        bits == f32_bits_of_half(v as int),
{
    if v == 0 {
        0
    } else {
        let b = f32_bits_from_int(v);
        proof {
            lemma_normalized_range(abs(v as int));
        }
        b - 0x80_0000
    }
}

/// Whether a single-precision bit pattern encodes NaN (all exponent bits
/// set and a non-zero significand).
pub open spec fn f32_is_nan(b: u32) -> bool {
    (b & 0x7f80_0000u32) == 0x7f80_0000u32 && (b & 0x007f_ffffu32) != 0
}

/// IEEE-754 `==` on the floats two bit patterns encode: NaN equals nothing,
/// the two zeros are equal, and otherwise equal floats have equal patterns.
pub open spec fn f32_eq(a: u32, b: u32) -> bool {
    !f32_is_nan(a) && !f32_is_nan(b) && (a == b || ((a & 0x7fff_ffffu32) == 0 && (b & 0x7fff_ffffu32) == 0))
}

/// `==` on the floats that `a` and `b` encode.
pub fn f32_bits_eq(a: u32, b: u32) -> (r: bool)
    ensures
        r == f32_eq(a, b),
{
    let a_nan = (a & 0x7f80_0000u32) == 0x7f80_0000u32 && (a & 0x007f_ffffu32) != 0;
    let b_nan = (b & 0x7f80_0000u32) == 0x7f80_0000u32 && (b & 0x007f_ffffu32) != 0;
    !a_nan && !b_nan && (a == b || ((a & 0x7fff_ffffu32) == 0 && (b & 0x7fff_ffffu32) == 0))
}

} // verus!
