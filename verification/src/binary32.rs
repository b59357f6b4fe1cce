//! The IEEE 754 binary32 encoding, as far as this crate reads it.
//!
//! A word holds, from the top, a sign bit, an eight-bit exponent field and a
//! 23-bit fraction. A finite word stands for the number
//! `significand * 2^exponent`, negated if the sign bit is set.

use vstd::prelude::*;
use vstd::arithmetic::div_mod::{lemma_basic_div, lemma_div_is_ordered_by_denominator};
use vstd::arithmetic::power2::{
    lemma2_to64,
    lemma_pow2_pos,
    lemma_pow2_strictly_increases,
    lemma_pow2_unfold,
    pow2,
};
use vstd::bits::{lemma_u64_shl_is_mul, lemma_u64_shr_is_div};

verus! {

/// The sign bit.
pub const SIGN_BIT: u32 = 0x8000_0000;

/// Encoding of positive infinity; every larger magnitude is a NaN.
pub const INFINITY_WORD: u32 = 0x7F80_0000;

/// Encoding of 1.0.
pub const ONE_WORD: u32 = 0x3F80_0000;

/// Encoding of 2^32, the least number above every `u32`.
pub const TOO_LARGE_WORD: u32 = 0x4F80_0000;

/// The bit that a normal number carries above its fraction.
pub const HIDDEN_BIT: u32 = 0x80_0000;

/// The sign bit is set.
pub open spec fn sign_set(word: u32) -> bool {
    word >= SIGN_BIT
}

/// The word without its sign bit.
pub open spec fn magnitude(word: u32) -> int {
    if sign_set(word) {
        word - SIGN_BIT
    } else {
        word as int
    }
}

/// The exponent field, 0 to 255.
pub open spec fn exponent_field(word: u32) -> int {
    magnitude(word) / (HIDDEN_BIT as int)
}

/// The fraction, below `HIDDEN_BIT`.
pub open spec fn fraction(word: u32) -> int {
    magnitude(word) % (HIDDEN_BIT as int)
}

/// The word encodes no number.
pub open spec fn is_nan(word: u32) -> bool {
    exponent_field(word) == 255 && fraction(word) != 0
}

/// The integer that the exponent scales. A zero exponent field marks a
/// subnormal number, which lacks the hidden bit.
pub open spec fn significand(word: u32) -> int {
    if exponent_field(word) == 0 {
        fraction(word)
    } else {
        HIDDEN_BIT + fraction(word)
    }
}

/// The power of two by which the significand is scaled.
pub open spec fn exponent(word: u32) -> int {
    if exponent_field(word) == 0 {
        -149
    } else {
        exponent_field(word) - 150
    }
}

/// The encoded number is greater than zero: the sign bit is clear, the word
/// is not a NaN and the number is not zero. Positive infinity counts.
pub open spec fn is_positive(word: u32) -> bool {
    !sign_set(word) && !is_nan(word) && significand(word) > 0
}

/// The positive words are those from 1 up to the encoding of infinity.
pub proof fn lemma_positive_words(word: u32)
    ensures
        is_positive(word) <==> 0 < word <= INFINITY_WORD,
{
}

/// Number of low bits by which `p` exceeds 24 significant bits.
pub open spec fn excess_bits(p: nat) -> nat
    decreases p,
{
    if p < 0x100_0000 {
        0
    } else {
        1 + excess_bits(p / 2)
    }
}

/// `p` rounded to the nearest multiple of `2^s`; of two that are equally
/// near, the even multiple.
pub open spec fn round_to_multiple(p: nat, s: nat) -> nat {
    let unit = pow2(s);
    let q = p / unit;
    let r = p % unit;
    if 2 * r > unit || (2 * r == unit && q % 2 == 1) {
        (q + 1) * unit
    } else {
        q * unit
    }
}

/// `p` rounded to 24 significant bits, ties to even: the significand that
/// a binary32 operation keeps of an exact result `p`.
pub open spec fn round_to_24_bits(p: nat) -> nat {
    round_to_multiple(p, excess_bits(p))
}

/// The integer part of `n * 2^e`.
pub open spec fn floor_scaled(n: nat, e: int) -> nat {
    if e >= 0 {
        n * pow2(e as nat)
    } else {
        n / pow2((-e) as nat)
    }
}

/// A number of exactly `24 + s` bits exceeds 24 bits by `s`.
pub proof fn lemma_excess_bits(p: nat, s: nat)
    requires
        p < pow2(24 + s),
        s > 0 ==> p >= pow2((23 + s) as nat),
    ensures
        excess_bits(p) == s,
    decreases s,
{
    lemma2_to64();
    if s == 0 {
    } else {
        lemma_pow2_unfold(24 + s);
        lemma_pow2_unfold((23 + s) as nat);
        if s > 1 {
            lemma_pow2_strictly_increases(24, (23 + s) as nat);
        }
        lemma_excess_bits(p / 2, (s - 1) as nat);
    }
}

/// The encoded number without its fraction, as an unsigned 32-bit integer:
/// zero for negative numbers and NaNs, the largest integer for numbers
/// beyond it.
pub open spec fn truncated(word: u32) -> int {
    if sign_set(word) || is_nan(word) {
        0
    } else {
        let whole = floor_scaled(significand(word) as nat, exponent(word));
        if whole > u32::MAX {
            u32::MAX as int
        } else {
            whole as int
        }
    }
}

/// The integer part of an encoded number, limited to what `u32` holds.
pub fn truncate(word: u32) -> (whole: u32)
    ensures
        whole == truncated(word),
{
    if word > INFINITY_WORD {
        0
    } else if word >= TOO_LARGE_WORD {
        proof {
            let e = exponent(word);
            let sig = significand(word);
            lemma2_to64();
            assert(e >= 9);
            if e > 9 {
                lemma_pow2_strictly_increases(9, e as nat);
            }
            assert(sig * pow2(e as nat) >= 0x80_0000 * 0x200) by (nonlinear_arith)
                requires
                    sig >= 0x80_0000,
                    pow2(e as nat) >= 0x200,
            ;
        }
        u32::MAX
    } else if word < ONE_WORD {
        proof {
            let e = exponent(word);
            lemma2_to64();
            assert(e <= -24);
            if e < -24 {
                lemma_pow2_strictly_increases(24, (-e) as nat);
            }
            lemma_basic_div(significand(word), pow2((-e) as nat) as int);
        }
        0
    } else {
        let field: u32 = word / HIDDEN_BIT;
        let sig: u64 = (word % HIDDEN_BIT) as u64 + HIDDEN_BIT as u64;
        assert(field == exponent_field(word) && 127 <= field <= 158);
        assert(sig == significand(word));
        if field >= 150 {
            let shift: u64 = (field - 150) as u64;
            proof {
                lemma2_to64();
                if shift < 8 {
                    lemma_pow2_strictly_increases(shift as nat, 8);
                }
                assert(sig * pow2(shift as nat) < 0x1_0000_0000) by (nonlinear_arith)
                    requires
                        sig < 0x100_0000,
                        pow2(shift as nat) <= 0x100,
                ;
                lemma_u64_shl_is_mul(sig, shift);
            }
            (sig << shift) as u32
        } else {
            let shift: u64 = (150 - field) as u64;
            proof {
                lemma_pow2_pos(shift as nat);
                lemma_u64_shr_is_div(sig, shift);
                lemma_div_is_ordered_by_denominator(sig as int, 1, pow2(shift as nat) as int);
            }
            (sig >> shift) as u32
        }
    }
}

} // verus!
