//! Normalization of 8-bit color channels to single-precision values.
//!
//! The native driver takes clear colors as IEEE-754 single-precision channels
//! in `[0, 1]`, obtained by dividing the 8-bit channel value by 255. A
//! floating-point number cannot be computed in verified code, so this module
//! computes the *bit pattern* of that quotient with integer arithmetic:
//! `norm_bits(c)` is the encoding of the single-precision value nearest to
//! `c / 255` (the division can never fall halfway between two representable
//! values, so no tie-breaking rule is needed). The shell reinterprets the bit
//! pattern as a float before handing it to the driver, which makes the
//! conversion exactly the native one.

use vstd::arithmetic::div_mod::{
    lemma_div_is_ordered, lemma_fundamental_div_mod, lemma_fundamental_div_mod_converse,
};
use vstd::arithmetic::power2::{lemma2_to64, pow2};
use vstd::prelude::*;

use crate::resources::Color;

verus! {

/// The power of two that scales `c / 255` into the significand range
/// `[2^23, 2^24)`: `2^(23 - e)` where `2^e <= c / 255 < 2^(e + 1)`.
/// Meaningful for `1 <= c <= 254`.
pub open spec fn norm_scale(c: int) -> int {
    if c >= 128 {
        0x100_0000
    } else if c >= 64 {
        0x200_0000
    } else if c >= 32 {
        0x400_0000
    } else if c >= 16 {
        0x800_0000
    } else if c >= 8 {
        0x1000_0000
    } else if c >= 4 {
        0x2000_0000
    } else if c >= 2 {
        0x4000_0000
    } else {
        0x8000_0000
    }
}

/// The biased exponent field of the normalized value of `c`, for
/// `1 <= c <= 254`: `e + 127` where `2^e <= c / 255 < 2^(e + 1)`.
pub open spec fn norm_exp_field(c: int) -> int {
    if c >= 128 {
        126
    } else if c >= 64 {
        125
    } else if c >= 32 {
        124
    } else if c >= 16 {
        123
    } else if c >= 8 {
        122
    } else if c >= 4 {
        121
    } else if c >= 2 {
        120
    } else {
        119
    }
}

/// The IEEE-754 single-precision bit pattern of the representable value
/// nearest to `c / 255`, for a channel value `0 <= c <= 255`.
///
/// `0` maps to `0.0` and `255` to `1.0`, both exact. For the rest the
/// significand is `c * 2^(23 - e) / 255` rounded to the nearest integer;
/// a tie would need the remainder of that division to be exactly `255 / 2`,
/// which no integer remainder is, so rounding to nearest is unambiguous.
pub open spec fn norm_bits(c: int) -> int
    recommends
        0 <= c <= 255,
{
    if c <= 0 {
        0
    } else if c >= 255 {
        0x3F80_0000
    } else {
        let n = c * norm_scale(c);
        let q = n / 255;
        let m = if n % 255 >= 128 {
            q + 1
        } else {
            q
        };
        norm_exp_field(c) * 0x80_0000 + (m - 0x80_0000)
    }
}

/// An RGBA color with each channel normalized to `[0, 1]` and held as an
/// IEEE-754 single-precision bit pattern.
#[derive(Clone, Copy, PartialEq, Eq, Structural, Debug, Default)]
pub struct NormalizedColor {
    pub r_bits: u32,
    pub g_bits: u32,
    pub b_bits: u32,
    pub a_bits: u32,
}

/// The normalized form of an 8-bit color: every channel divided by 255.
pub open spec fn normalized(c: Color) -> NormalizedColor {
    NormalizedColor {
        r_bits: norm_bits(c.r as int) as u32,
        g_bits: norm_bits(c.g as int) as u32,
        b_bits: norm_bits(c.b as int) as u32,
        a_bits: norm_bits(c.a as int) as u32,
    }
}

/// Establishes the bounds on the scaled quotient that place the rounded
/// significand in `[2^23, 2^24)`, for `1 <= c <= 254`.
proof fn lemma_norm_significand_range(c: int)
    requires
        1 <= c <= 254,
    ensures
        0x8000_0000 <= c * norm_scale(c) <= 0xFE00_0000,
        ({
            let n = c * norm_scale(c);
            let m = if n % 255 >= 128 {
                n / 255 + 1
            } else {
                n / 255
            };
            0x80_0000 <= m < 0x100_0000
        }),
{
    let n = c * norm_scale(c);
    assert(0x8000_0000 <= n <= 0xFE00_0000);
    lemma_div_is_ordered(0x8000_0000, n, 255);
    lemma_div_is_ordered(n, 0xFE00_0000, 255);
    lemma_fundamental_div_mod_converse(0x8000_0000, 255, 8421504, 128);
    lemma_fundamental_div_mod_converse(0xFE00_0000, 255, 16711422, 254);
}

/// The law behind `norm_bits`: the encoded value is the representable one
/// nearest to `c / 255`.
///
/// Decoding `norm_bits(c)` as a biased exponent field `ef` and a significand
/// `m` (with the hidden leading bit restored), the encoded value is
/// `m * 2^(ef - 150)`. The inequality bounds `|2 * c * 2^(150 - ef) - 510 * m|`
/// by 254, which after dividing by `510 * 2^(150 - ef)` says that the encoded
/// value differs from `c / 255` by strictly less than half a unit in the last
/// place — so no other value with a 24-bit significand is as close.
pub proof fn lemma_norm_bits_nearest(c: int)
    requires
        1 <= c <= 255,
    ensures
        ({
            let bits = norm_bits(c);
            let ef = bits / 0x80_0000;
            let m = bits % 0x80_0000 + 0x80_0000;
            &&& 119 <= ef <= 127
            &&& -254 <= 2 * c * pow2((150 - ef) as nat) - 510 * m
            &&& 2 * c * pow2((150 - ef) as nat) - 510 * m <= 254
        }),
{
    lemma2_to64();
    if c == 255 {
        lemma_fundamental_div_mod_converse(0x3F80_0000, 0x80_0000, 127, 0);
        assert(norm_bits(c) / 0x80_0000 == 127);
        assert(pow2(23) == 0x80_0000);
    } else {
        let n = c * norm_scale(c);
        let q = n / 255;
        let r = n % 255;
        let m0 = if r >= 128 {
            q + 1
        } else {
            q
        };
        let ef0 = norm_exp_field(c);
        lemma_norm_significand_range(c);
        lemma_fundamental_div_mod_converse(
            ef0 * 0x80_0000 + (m0 - 0x80_0000),
            0x80_0000,
            ef0,
            m0 - 0x80_0000,
        );
        assert(norm_bits(c) / 0x80_0000 == ef0);
        assert(norm_bits(c) % 0x80_0000 + 0x80_0000 == m0);
        assert(pow2((150 - ef0) as nat) == norm_scale(c));
        lemma_fundamental_div_mod(n, 255);
        assert(2 * c * pow2((150 - ef0) as nat) == 2 * n) by (nonlinear_arith)
            requires
                pow2((150 - ef0) as nat) == norm_scale(c),
                n == c * norm_scale(c),
        ;
        assert(0 <= r < 255);
    }
}

/// The bit pattern of the single-precision channel value `c / 255`,
/// computed with integer arithmetic.
pub fn norm_channel_bits(c: u8) -> (bits: u32)
    ensures
        bits == norm_bits(c as int),
{
    if c == 0 {
        0
    } else if c == 255 {
        0x3F80_0000
    } else {
        let n: u64 = if c >= 128 {
            (c as u64) * 0x100_0000
        } else if c >= 64 {
            (c as u64) * 0x200_0000
        } else if c >= 32 {
            (c as u64) * 0x400_0000
        } else if c >= 16 {
            (c as u64) * 0x800_0000
        } else if c >= 8 {
            (c as u64) * 0x1000_0000
        } else if c >= 4 {
            (c as u64) * 0x2000_0000
        } else if c >= 2 {
            (c as u64) * 0x4000_0000
        } else {
            (c as u64) * 0x8000_0000
        };
        let exp_field: u32 = if c >= 128 {
            126
        } else if c >= 64 {
            125
        } else if c >= 32 {
            124
        } else if c >= 16 {
            123
        } else if c >= 8 {
            122
        } else if c >= 4 {
            121
        } else if c >= 2 {
            120
        } else {
            119
        };
        proof {
            assert(n == c * norm_scale(c as int));
            assert(exp_field == norm_exp_field(c as int));
            lemma_norm_significand_range(c as int);
        }
        let q: u64 = n / 255;
        let m: u64 = if n % 255 >= 128 {
            q + 1
        } else {
            q
        };
        exp_field * 0x80_0000 + (m as u32 - 0x80_0000)
    }
}

/// Normalizes all four channels of an 8-bit color.
pub fn normalize_color(c: Color) -> (nc: NormalizedColor)
    ensures
        nc == normalized(c),
{
    NormalizedColor {
        r_bits: norm_channel_bits(c.r),
        g_bits: norm_channel_bits(c.g),
        b_bits: norm_channel_bits(c.b),
        a_bits: norm_channel_bits(c.a),
    }
}

} // verus!
