//! The character grid that an image is rendered to.
//!
//! Only the pixels whose column is a multiple of the scale, on the rows whose
//! number is a multiple of twice the scale, are looked at. Each of them gives
//! one character, and the characters of one row of pixels form one line: the
//! grid is compacted, pixels that are passed over leave no gap.

use crate::intensity::{char_index, luminance};
use vstd::arithmetic::div_mod::{lemma_fundamental_div_mod, lemma_fundamental_div_mod_converse};
use vstd::arithmetic::mul::lemma_mul_inequality;
use vstd::prelude::*;

verus! {

/// Number of multiples of `stride` below `extent`, which is `extent / stride`
/// rounded up.
pub open spec fn sample_count(extent: nat, stride: nat) -> nat {
    if stride == 0 {
        0
    } else {
        ((extent + stride - 1) / (stride as int)) as nat
    }
}

/// The character that stands for a pixel.
pub open spec fn char_for(rgb: (u8, u8, u8), palette: Seq<char>) -> char {
    palette[char_index(luminance(rgb.0, rgb.1, rgb.2), palette.len()) as int]
}

/// The line that a row of pixels is rendered to: one character for every
/// `scale`-th pixel, starting with the first.
pub open spec fn sampled_line(row: Seq<(u8, u8, u8)>, palette: Seq<char>, scale: nat) -> Seq<char> {
    Seq::new(sample_count(row.len(), scale), |i: int| char_for(row[i * scale], palette))
}

/// The lines that an image is rendered to: one for every row whose number is
/// a multiple of `2 * scale`, starting with the first.
pub open spec fn sampled_lines(rows: Seq<Seq<(u8, u8, u8)>>, palette: Seq<char>, scale: nat) -> Seq<
    Seq<char>,
> {
    Seq::new(
        sample_count(rows.len(), 2 * scale),
        |j: int| sampled_line(rows[j * (2 * scale)], palette, scale),
    )
}

/// The lines one after another, each closed by a line feed.
pub open spec fn joined(lines: Seq<Seq<char>>) -> Seq<char>
    decreases lines.len(),
{
    if lines.len() == 0 {
        Seq::empty()
    } else {
        joined(lines.drop_last()) + lines.last().push('\n')
    }
}

/// The text that is printed for an image: its lines, then one empty line.
pub open spec fn ascii_art(rows: Seq<Seq<(u8, u8, u8)>>, palette: Seq<char>, scale: nat) -> Seq<char> {
    joined(sampled_lines(rows, palette, scale)).push('\n')
}

/// Nothing is sampled from an empty extent.
pub proof fn lemma_sample_count_zero(stride: nat)
    ensures
        sample_count(0, stride) == 0,
{
    if stride > 0 {
        lemma_fundamental_div_mod_converse(stride - 1, stride as int, 0, stride - 1);
    }
}

/// How the number of samples grows with the extent: by one where the extent
/// is a multiple of the stride, which is then the place of the new sample,
/// and not at all elsewhere.
pub proof fn lemma_sample_count_step(extent: nat, stride: nat)
    requires
        stride >= 1,
    ensures
        extent % stride == 0 ==> sample_count(extent, stride) * stride == extent,
        extent % stride == 0 ==> sample_count(extent + 1, stride) == sample_count(extent, stride) + 1,
        extent % stride != 0 ==> sample_count(extent + 1, stride) == sample_count(extent, stride),
{
    let s = stride as int;
    let q = extent as int / s;
    let r = extent as int % s;
    lemma_fundamental_div_mod(extent as int, s);
    assert(s * q == q * s) by (nonlinear_arith);
    assert((q + 1) * s == q * s + s) by (nonlinear_arith);
    if r == 0 {
        lemma_fundamental_div_mod_converse(extent + s - 1, s, q, s - 1);
        lemma_fundamental_div_mod_converse(extent + 1 + s - 1, s, q + 1, 0);
    } else {
        lemma_fundamental_div_mod_converse(extent + s - 1, s, q + 1, r - 1);
        lemma_fundamental_div_mod_converse(extent + 1 + s - 1, s, q + 1, r);
    }
}

/// A larger extent holds at least as many samples.
pub proof fn lemma_sample_count_monotonic(shorter: nat, longer: nat, stride: nat)
    requires
        shorter <= longer,
    ensures
        sample_count(shorter, stride) <= sample_count(longer, stride),
    decreases longer - shorter,
{
    if stride >= 1 && shorter < longer {
        lemma_sample_count_step(shorter, stride);
        lemma_sample_count_monotonic(shorter + 1, longer, stride);
    }
}

/// Every sample lies inside the extent: the grid never reaches for a pixel
/// that the image does not have.
pub proof fn lemma_sample_in_bounds(extent: nat, stride: nat, index: nat)
    requires
        stride >= 1,
        index < sample_count(extent, stride),
    ensures
        index * stride < extent,
{
    let s = stride as int;
    let count = sample_count(extent, stride) as int;
    lemma_fundamental_div_mod(extent + s - 1, s);
    lemma_mul_inequality(index as int, count - 1, s);
    assert((count - 1) * s == s * count - s) by (nonlinear_arith);
}

/// Which pixels are sampled, and where their characters go: the pixel in
/// column `x` of row `y` is sampled when `x` is a multiple of the scale and
/// `y` a multiple of twice the scale, and its character is then number
/// `x / scale` of line number `y / (2 * scale)`.
pub proof fn lemma_sampled_position(
    rows: Seq<Seq<(u8, u8, u8)>>,
    palette: Seq<char>,
    scale: nat,
    x: nat,
    y: nat,
)
    requires
        scale >= 1,
        y < rows.len(),
        x < rows[y as int].len(),
        x % scale == 0,
        y % (2 * scale) == 0,
    ensures
        y / (2 * scale) < sampled_lines(rows, palette, scale).len(),
        x / scale < sampled_lines(rows, palette, scale)[(y / (2 * scale)) as int].len(),
        sampled_lines(rows, palette, scale)[(y / (2 * scale)) as int][(x / scale) as int]
            == char_for(rows[y as int][x as int], palette),
{
    let stride = 2 * scale;
    let line = sample_count(y, stride);
    let column = sample_count(x, scale);
    lemma_sample_count_step(y, stride);
    lemma_sample_count_monotonic(y + 1, rows.len(), stride);
    lemma_fundamental_div_mod_converse(y as int, stride as int, line as int, 0);
    lemma_sample_count_step(x, scale);
    lemma_sample_count_monotonic(x + 1, rows[y as int].len(), scale);
    lemma_fundamental_div_mod_converse(x as int, scale as int, column as int, 0);
}

/// Joining one more line appends it and its line feed.
pub proof fn lemma_joined_push(lines: Seq<Seq<char>>, line: Seq<char>)
    ensures
        joined(lines.push(line)) == joined(lines) + line.push('\n'),
{
    assert(lines.push(line).drop_last() =~= lines);
}

} // verus!
