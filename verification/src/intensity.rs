//! Brightness of a pixel and its place in a palette.
//!
//! Intensities are fixed-point numbers: a value `v` stands for the brightness
//! `v / UNIT`, so that the luminance weights are whole numbers and every
//! result is exact.

use vstd::arithmetic::div_mod::{lemma_div_is_ordered, lemma_multiply_divide_lt};
use vstd::arithmetic::mul::{lemma_mul_inequality, lemma_mul_strict_inequality};
use vstd::prelude::*;

verus! {

/// Number of intensity units in one brightness level.
pub const UNIT: u32 = 10_000;

/// Every intensity that can be mapped to a character lies below this bound:
/// the palette is spread over 256 brightness levels of `UNIT` units each.
pub const INTENSITY_LIMIT: u32 = 2_560_000;

/// Weight of the red channel, in units.
pub const RED_WEIGHT: u32 = 2_989;

/// Weight of the green channel, in units.
pub const GREEN_WEIGHT: u32 = 5_870;

/// Weight of the blue channel, in units.
pub const BLUE_WEIGHT: u32 = 1_140;

/// Luminance of an RGB triple in units: `0.2989 R + 0.5870 G + 0.1140 B`,
/// scaled by `UNIT`.
pub open spec fn luminance(red: u8, green: u8, blue: u8) -> nat {
    (RED_WEIGHT * red + GREEN_WEIGHT * green + BLUE_WEIGHT * blue) as nat
}

/// Position in a palette of `len` characters of the bucket that `intensity`
/// falls into, when the range of intensities is cut into `len` equal buckets:
/// `floor(intensity / (INTENSITY_LIMIT / len))`, with an exact quotient.
pub open spec fn char_index(intensity: nat, len: nat) -> nat {
    (intensity * len) / (INTENSITY_LIMIT as nat)
}

/// No intensity below the limit is mapped outside the palette.
pub proof fn lemma_char_index_in_bounds(intensity: nat, len: nat)
    requires
        len >= 1,
        intensity < INTENSITY_LIMIT,
    ensures
        char_index(intensity, len) < len,
{
    let limit = INTENSITY_LIMIT as int;
    lemma_mul_strict_inequality(intensity as int, limit, len as int);
    lemma_multiply_divide_lt(intensity as int * len as int, limit, len as int);
}

/// A brighter pixel is never given an earlier character than a darker one.
pub proof fn lemma_char_index_monotonic(darker: nat, brighter: nat, len: nat)
    requires
        darker <= brighter,
    ensures
        char_index(darker, len) <= char_index(brighter, len),
{
    lemma_mul_inequality(darker as int, brighter as int, len as int);
    lemma_div_is_ordered(darker as int * len as int, brighter as int * len as int, INTENSITY_LIMIT as int);
}

/// Computes the luminance of a pixel. It never exceeds brightness 255, so
/// it can always be mapped to a character.
pub fn get_pixel_intensity(red: u8, green: u8, blue: u8) -> (intensity: u32)
    ensures
        intensity == luminance(red, green, blue),
        intensity <= 255 * UNIT,
{
    RED_WEIGHT * (red as u32) + GREEN_WEIGHT * (green as u32) + BLUE_WEIGHT * (blue as u32)
}

/// Computes the position in a palette of `len` characters that `intensity` is
/// mapped to.
pub fn palette_index(intensity: u32, len: usize) -> (index: usize)
    requires
        len >= 1,
        intensity < INTENSITY_LIMIT,
    ensures
        index == char_index(intensity as nat, len as nat),
        index < len,
{
    proof {
        lemma_char_index_in_bounds(intensity as nat, len as nat);
        lemma_mul_strict_inequality(intensity as int, INTENSITY_LIMIT as int, len as int);
    }
    let scaled: u128 = (intensity as u128) * (len as u128);
    (scaled / (INTENSITY_LIMIT as u128)) as usize
}

} // verus!
