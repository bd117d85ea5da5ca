//! Fixed-point arithmetic in millionths.
//!
//! Lengths, positions, colour levels and ratios that are not whole numbers
//! are held as `i64` counts of millionths: `1_500_000` is one and a half
//! pixels, `500_000` is the ratio one half.  Every operation here is exact
//! integer arithmetic with a stated rounding direction.

use vstd::prelude::*;

verus! {

/// The fixed-point representation of the number one.
pub const ONE: i64 = 1_000_000;

/// The fixed-point representation of one half.
pub const HALF: i64 = 500_000;

/// The largest ratio a configuration may hold: one thousand.
///
/// A `u32` dimension times a ratio up to this bound still fits in an `i64`.
pub const MAX_RATIO: i64 = 1_000_000_000;

/// `a / b` rounded toward zero, for a positive `b`.
pub open spec fn div_toward_zero(a: int, b: int) -> int {
    if a >= 0 {
        a / b
    } else {
        -((-a) / b)
    }
}

/// `v` limited to the closed range from `lo` to `hi`.  Where `hi` is below
/// `lo`, a value below `lo` gives `lo` and every other value gives `hi`.
pub open spec fn clamp(v: int, lo: int, hi: int) -> int {
    if v < lo {
        lo
    } else if v > hi {
        hi
    } else {
        v
    }
}

/// The absolute value of `v`.
pub open spec fn magnitude(v: int) -> int {
    if v < 0 {
        -v
    } else {
        v
    }
}

/// A whole number of pixels as a fixed-point length.
pub open spec fn from_pixels(px: int) -> int {
    px * ONE
}

/// The whole number nearest to the fixed-point value `v`, halves going up.
pub open spec fn round_to_whole(v: int) -> int {
    (v + HALF) / (ONE as int)
}

/// The largest whole number that does not exceed the fixed-point value `v`.
pub open spec fn floor_to_whole(v: int) -> int {
    v / (ONE as int)
}

/// The largest even number that does not exceed `n`.
pub open spec fn even_floor(n: int) -> int {
    n - n % 2
}

/// Rounds `num` down to an even number, as 4:2:0 chroma planes need.
pub fn make_even(num: u32) -> (r: u32)
    ensures
        r == even_floor(num as int),
        r % 2 == 0,
        r <= num,
        num - r <= 1,
{
    num - (num % 2)
}

/// Limits `v` to the closed range from `lo` to `hi`.
pub fn clamp_to(v: i64, lo: i64, hi: i64) -> (r: i64)
    ensures
        r == clamp(v as int, lo as int, hi as int),
{
    if v < lo {
        lo
    } else if v > hi {
        hi
    } else {
        v
    }
}

/// Limits a wide intermediate value to a range of `i64` bounds.
pub fn clamp_wide(v: i128, lo: i64, hi: i64) -> (r: i64)
    ensures
        r == clamp(v as int, lo as int, hi as int),
{
    if v < lo as i128 {
        lo
    } else if v > hi as i128 {
        hi
    } else {
        v as i64
    }
}

/// A whole number of pixels as a fixed-point length.
pub fn pixels(px: u32) -> (r: i64)
    ensures
        r == from_pixels(px as int),
        0 <= r,
{
    (px as i64) * ONE
}

/// Floor division of a wide value by a positive divisor.
pub fn floor_div(a: i128, b: i128) -> (q: i128)
    requires
        b > 0,
    ensures
        q == (a as int) / (b as int),
{
    if a >= 0 {
        a / b
    } else {
        // a < 0: the truncated quotient is one too large unless b divides a.
        let t: i128 = a / b;
        let r: i128 = a % b;
        proof {
            lemma_floor_from_truncation(a as int, b as int);
        }
        if r == 0 {
            t
        } else {
            t - 1
        }
    }
}

/// For a negative `a`, relates the quotient rounded toward zero to the floor.
proof fn lemma_floor_from_truncation(a: int, b: int)
    by (nonlinear_arith)
    requires
        a < 0,
        b > 0,
    ensures
        (-a) % b == 0 ==> a / b == -((-a) / b),
        (-a) % b != 0 ==> a / b == -((-a) / b) - 1,
        a / b >= a,
{
}

/// The whole number nearest to a fixed-point value, halves going up.
pub fn round_whole(v: i64) -> (r: i64)
    ensures
        r == round_to_whole(v as int),
{
    floor_div(v as i128 + HALF as i128, ONE as i128) as i64
}

} // verus!
