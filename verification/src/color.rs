//! The color buffer: the field as packed gray pixels.
//!
//! A field value becomes a brightness level by multiplying it by 255,
//! dropping the fraction and clamping to 0..=255. The level is packed into
//! the red, green and blue lanes of a pixel. Levels are computed on the
//! encoding of the value, in integers; `lemma_rounding_keeps_the_level`
//! shows that a single-precision multiplication yields the same levels.

use vstd::prelude::*;
use vstd::arithmetic::div_mod::{lemma_basic_div, lemma_div_is_ordered_by_denominator};
use vstd::arithmetic::power2::{lemma2_to64, lemma_pow2_pos, lemma_pow2_strictly_increases, pow2};
use vstd::bits::lemma_u64_shr_is_div;
use crate::binary32::{
    excess_bits,
    exponent,
    exponent_field,
    floor_scaled,
    is_nan,
    lemma_excess_bits,
    round_to_24_bits,
    round_to_multiple,
    sign_set,
    significand,
    INFINITY_WORD,
    ONE_WORD,
};
use crate::field::{cell_count, cells_in, FieldBuffer};

verus! {

/// The brightest level.
pub const MAX_LEVEL: u32 = 255;

/// `raw` limited to the levels 0 to 255.
pub open spec fn clamp_level(raw: int) -> int {
    if raw < 0 {
        0
    } else if raw > 255 {
        255
    } else {
        raw
    }
}

/// The pixel with `level` in its red, green and blue lanes and nothing in
/// its top eight bits.
pub open spec fn gray_of(level: int) -> int {
    level * 0x1_0000 + level * 0x100 + level
}

/// Encoding of 2^-8. Scaled by 255, every smaller number stays below one.
pub const DARK_BELOW: u32 = 0x3B80_0000;

/// The integer part of 255 times the number that a finite, non-negative
/// `word` encodes.
pub open spec fn scaled(word: u32) -> nat {
    floor_scaled((255 * significand(word)) as nat, exponent(word))
}

/// The same integer part when the product is first rounded to binary32, as
/// a single-precision multiplication rounds it. (A product too large for
/// binary32 becomes infinite; its integer part is then no smaller than
/// this.)
pub open spec fn scaled_rounded(word: u32) -> nat {
    floor_scaled(round_to_24_bits((255 * significand(word)) as nat), exponent(word))
}

/// The brightness level of an encoded field value: 255 times the value
/// without its fraction, limited to 0..=255. Negative numbers and NaNs are
/// dark.
pub open spec fn level_of(word: u32) -> int {
    if sign_set(word) || is_nan(word) {
        0
    } else {
        clamp_level(scaled(word) as int)
    }
}

/// The pixel shown for an encoded field value.
pub open spec fn color_of(word: u32) -> int {
    gray_of(level_of(word))
}

/// Bits 16 to 23 of a pixel.
pub open spec fn red(pixel: int) -> int {
    pixel / 0x1_0000 % 0x100
}

/// Bits 8 to 15 of a pixel.
pub open spec fn green(pixel: int) -> int {
    pixel / 0x100 % 0x100
}

/// Bits 0 to 7 of a pixel.
pub open spec fn blue(pixel: int) -> int {
    pixel % 0x100
}

/// Every field value, however far out of range, yields a neutral gray: the
/// three lanes hold the same level between 0 and 255 and the pixel stays
/// within 24 bits.
pub proof fn lemma_color_is_gray(word: u32)
    ensures
        0 <= level_of(word) <= 255,
        0 <= color_of(word) <= 0xFF_FFFF,
        red(color_of(word)) == level_of(word),
        green(color_of(word)) == level_of(word),
        blue(color_of(word)) == level_of(word),
{
}

/// How far a product of 255 and a significand exceeds 24 bits, and that
/// rounding does not carry it out of 32 bits.
proof fn lemma_rounded_product(sig: int)
    requires
        0 <= sig < 0x100_0000,
    ensures
        excess_bits((255 * sig) as nat) <= 8,
        round_to_24_bits((255 * sig) as nat) < 0x1_0000_0000,
        sig >= 0x80_0000 ==> round_to_24_bits((255 * sig) as nat) >= 255 * 0x80_0000,
        0x80_0000 <= sig && 255 * sig < 0x8000_0000 ==> excess_bits((255 * sig) as nat) == 7,
        255 * sig >= 0x8000_0000 ==> excess_bits((255 * sig) as nat) == 8,
{
    let p = (255 * sig) as nat;
    lemma2_to64();
    if p < 0x100_0000 {
        lemma_excess_bits(p, 0);
    } else if p < 0x200_0000 {
        lemma_excess_bits(p, 1);
    } else if p < 0x400_0000 {
        lemma_excess_bits(p, 2);
    } else if p < 0x800_0000 {
        lemma_excess_bits(p, 3);
    } else if p < 0x1000_0000 {
        lemma_excess_bits(p, 4);
    } else if p < 0x2000_0000 {
        lemma_excess_bits(p, 5);
    } else if p < 0x4000_0000 {
        lemma_excess_bits(p, 6);
    } else if p < 0x8000_0000 {
        lemma_excess_bits(p, 7);
    } else {
        lemma_excess_bits(p, 8);
    }
}

/// A product of 31 or 32 bits rounded to 24 significant bits, ties to even.
spec fn rounded_product(p: u64) -> u64 {
    let unit: u64 = if p < 0x8000_0000 {
        0x80
    } else {
        0x100
    };
    let q: u64 = p / unit;
    let r: u64 = p % unit;
    if 2 * r > unit || (2 * r == unit && q % 2 == 1) {
        ((q + 1) * unit) as u64
    } else {
        (q * unit) as u64
    }
}

/// Between 2^-8 and 1, rounding the product never lifts it to the next
/// whole number.
proof fn lemma_rounding_stays_below_next_integer(sig: u64, shift: u64)
    by (bit_vector)
    requires
        0x80_0000 <= sig < 0x100_0000,
        24 <= shift <= 31,
    ensures
        rounded_product((255 * sig) as u64) >> shift == ((255 * sig) as u64) >> shift,
        ((255 * sig) as u64) >> shift <= 255,
{
}

/// `n * 2^e` is at least 255 once `n` is at least `255 * 2^23` and `e` at
/// least -23.
proof fn lemma_floor_scaled_is_large(n: nat, e: int)
    requires
        n >= 255 * 0x80_0000,
        e >= -23,
    ensures
        floor_scaled(n, e) >= 255,
{
    lemma2_to64();
    if e >= 0 {
        lemma_pow2_pos(e as nat);
        assert(n * pow2(e as nat) >= n) by (nonlinear_arith)
            requires
                pow2(e as nat) >= 1,
        ;
    } else {
        let d = pow2((-e) as nat);
        if -e < 23 {
            lemma_pow2_strictly_increases((-e) as nat, 23);
        }
        lemma_pow2_pos((-e) as nat);
        lemma_div_is_ordered_by_denominator(n as int, d as int, 0x80_0000);
    }
}

/// `n * 2^e` is below one once `n` is below 2^32 and `e` at most -32.
proof fn lemma_floor_scaled_is_zero(n: nat, e: int)
    requires
        n < 0x1_0000_0000,
        e <= -32,
    ensures
        floor_scaled(n, e) == 0,
{
    lemma2_to64();
    let d = pow2((-e) as nat);
    if -e > 32 {
        lemma_pow2_strictly_increases(32, (-e) as nat);
    }
    lemma_basic_div(n as int, d as int);
}

/// From 1.0 upwards, infinity included, every value is shown at full
/// brightness.
pub proof fn lemma_one_and_above_is_white(word: u32)
    requires
        ONE_WORD <= word <= INFINITY_WORD,
    ensures
        level_of(word) == 255,
        color_of(word) == 0xFF_FFFF,
{
    lemma_floor_scaled_is_large((255 * significand(word)) as nat, exponent(word));
}

/// Zero, every number below 2^-8, every negative number and every NaN is
/// shown black.
pub proof fn lemma_small_negative_and_nan_are_black(word: u32)
    requires
        word < DARK_BELOW || sign_set(word) || is_nan(word),
    ensures
        level_of(word) == 0,
        color_of(word) == 0,
{
    if !sign_set(word) && !is_nan(word) {
        lemma_floor_scaled_is_zero((255 * significand(word)) as nat, exponent(word));
    }
}

/// Between 2^-8 and 1 the level is the product shifted down to its integer
/// part, with or without rounding to binary32 first.
proof fn lemma_level_in_between(word: u32)
    requires
        DARK_BELOW <= word < ONE_WORD,
    ensures
        scaled(word) == ((255 * significand(word)) as u64) >> ((-exponent(word)) as u64),
        scaled_rounded(word) == scaled(word),
        scaled(word) <= 255,
{
    let sig = significand(word) as u64;
    let shift = (-exponent(word)) as u64;
    let product = (255 * sig) as u64;
    lemma2_to64();
    lemma_rounded_product(sig as int);
    assert(119 <= exponent_field(word) <= 126);
    assert(24 <= shift <= 31);
    assert(rounded_product(product) == round_to_multiple(
        product as nat,
        excess_bits(product as nat),
    ));
    lemma_rounding_stays_below_next_integer(sig, shift);
    lemma_u64_shr_is_div(product, shift);
    lemma_u64_shr_is_div(rounded_product(product), shift);
}

/// Computing the level exactly or as binary32 arithmetic does gives the same
/// result: rounding the product to 24 significant bits never changes the
/// level.
pub proof fn lemma_rounding_keeps_the_level(word: u32)
    requires
        !sign_set(word),
        !is_nan(word),
    ensures
        clamp_level(scaled_rounded(word) as int) == level_of(word),
{
    let sig = significand(word);
    lemma_rounded_product(sig);
    if word >= ONE_WORD {
        lemma_one_and_above_is_white(word);
        lemma_floor_scaled_is_large(round_to_24_bits((255 * sig) as nat), exponent(word));
    } else if word < DARK_BELOW {
        lemma_small_negative_and_nan_are_black(word);
        lemma_floor_scaled_is_zero(round_to_24_bits((255 * sig) as nat), exponent(word));
    } else {
        lemma_level_in_between(word);
    }
}

/// The brightness level of an encoded field value.
pub fn level(word: u32) -> (level: u32)
    ensures
        level == level_of(word),
{
    if word > INFINITY_WORD {
        proof {
            lemma_small_negative_and_nan_are_black(word);
        }
        0
    } else if word >= ONE_WORD {
        proof {
            lemma_one_and_above_is_white(word);
        }
        MAX_LEVEL
    } else if word < DARK_BELOW {
        proof {
            lemma_small_negative_and_nan_are_black(word);
        }
        0
    } else {
        let field: u32 = word / 0x80_0000;
        let sig: u64 = (word % 0x80_0000) as u64 + 0x80_0000;
        let shift: u64 = 150 - field as u64;
        proof {
            lemma_level_in_between(word);
        }
        ((255 * sig) >> shift) as u32
    }
}

/// The pixel shown for an encoded field value: black for level 0, otherwise
/// the level in each of the three color lanes.
pub fn pixel(word: u32) -> (pixel: u32)
    ensures
        pixel == color_of(word),
{
    let level = level(word);
    if level > 0 {
        assert((level << 16) | (level << 8) | level == level * 0x1_0000 + level * 0x100 + level)
            by (bit_vector)
            requires
                level <= 255,
        ;
        (level << 16) | (level << 8) | level
    } else {
        0
    }
}

/// One packed pixel per cell of a square grid, in row-major order.
#[derive(Debug, PartialEq, Eq)]
pub struct ColorBuffer {
    dim: u32,
    pixels: Vec<u32>,
}

impl ColorBuffer {
    /// The pixels in row-major order.
    pub closed spec fn view(&self) -> Seq<u32> {
        self.pixels@
    }

    /// Number of pixels along each side.
    pub closed spec fn spec_dim(&self) -> u32 {
        self.dim
    }

    /// There is exactly one pixel for each position of the grid.
    pub open spec fn wf(&self) -> bool {
        self@.len() == cells_in(self.spec_dim())
    }

    /// An all-black buffer, unless the host cannot address that many pixels.
    pub fn new(dim: u32) -> (made: Option<ColorBuffer>)
        ensures
            made is Some <==> cells_in(dim) <= usize::MAX,
            made matches Some(buffer) ==> buffer.wf() && buffer.spec_dim() == dim && buffer@
                == Seq::new(cells_in(dim), |i: int| 0u32),
    {
        let count = cell_count(dim);
        if count > usize::MAX as u64 {
            return None;
        }
        let pixels = vec![0u32; count as usize];
        assert(pixels@ =~= Seq::new(cells_in(dim), |i: int| 0u32));
        Some(ColorBuffer { dim, pixels })
    }

    #[verifier::when_used_as_spec(spec_dim)]
    pub fn dim(&self) -> (dim: u32)
        ensures
            dim == self.spec_dim(),
    {
        self.dim
    }

    /// Number of pixels.
    pub fn len(&self) -> (len: usize)
        ensures
            len == self@.len(),
    {
        self.pixels.len()
    }

    /// The pixels in row-major order.
    pub fn pixels(&self) -> (pixels: &Vec<u32>)
        ensures
            pixels@ == self@,
    {
        &self.pixels
    }

    /// Overwrites every pixel in place with the color of the field value at
    /// the same position. A field of another size is refused and the buffer
    /// is left as it was.
    pub fn repaint(&mut self, field: &FieldBuffer) -> (done: bool)
        requires
            old(self).wf(),
        ensures
            final(self).wf(),
            final(self).spec_dim() == old(self).spec_dim(),
            done <==> field@.len() == old(self)@.len(),
            done ==> final(self)@ == Seq::new(field@.len(), |i: int| color_of(field@[i]) as u32),
            !done ==> final(self)@ == old(self)@,
    {
        let cells = field.cells();
        let count = self.pixels.len();
        if cells.len() != count {
            return false;
        }
        let mut i: usize = 0;
        while i < count
            invariant
                i <= count,
                count == cells@.len(),
                cells@ == field@,
                self.pixels@.len() == count,
                self.dim == old(self).dim,
                forall|k: int| 0 <= k < i ==> self.pixels@[k] == color_of(cells@[k]),
            decreases count - i,
        {
            let color = pixel(cells[i]);
            self.pixels.set(i, color);
            i += 1;
        }
        assert(self.pixels@ =~= Seq::new(field@.len(), |i: int| color_of(field@[i]) as u32));
        true
    }
}

} // verus!
