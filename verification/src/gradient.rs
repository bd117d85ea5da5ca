//! The background: a horizontal gradient, computed once per run as a table
//! with one entry per column of the canvas.
//!
//! Colours are interpolated in fixed point and converted to luma and
//! chroma ahead of time, so that painting a frame only copies bytes.

use crate::config::{BackgroundSpec, Rgb};
use crate::fixed::{clamp, div_toward_zero, floor_div, floor_to_whole, ONE};
use rayon::iter::{IntoParallelRefIterator, ParallelIterator};
use vstd::prelude::*;

verus! {

/// The offset that centres the chroma channels in the range of a byte.
pub const COLOR_SHIFT: i64 = 128_000_000;

/// One column of the background as three bytes: luma and two chroma.
#[derive(Clone, Copy, Debug, PartialEq, Eq)]
pub struct Yuv {
    pub y: u8,
    pub u: u8,
    pub v: u8,
}

/// The level of one channel at column `x` of `width` columns: the start
/// level at the left edge, the end level at the right edge, and in between
/// the start level plus the share `x / (width - 1)` of the difference,
/// rounded toward the start.  A single column takes the start level.
pub open spec fn interpolate(start: int, end: int, x: int, width: int) -> int {
    if width <= 1 {
        start
    } else {
        start + div_toward_zero((end - start) * x, width - 1)
    }
}

/// Luma: `0.299 R + 0.587 G + 0.114 B`, rounded down.
pub open spec fn luma(r: int, g: int, b: int) -> int {
    (299 * r + 587 * g + 114 * b) / 1000
}

/// Blue-difference chroma: `-0.16874 R - 0.33126 G + 0.5 B + 128`, the
/// weighted sum rounded down.
pub open spec fn chroma_u(r: int, g: int, b: int) -> int {
    (-16874 * r - 33126 * g + 50000 * b) / 100000 + COLOR_SHIFT
}

/// Red-difference chroma: `0.5 R - 0.41869 G - 0.08131 B + 128`, the
/// weighted sum rounded down.
pub open spec fn chroma_v(r: int, g: int, b: int) -> int {
    (50000 * r - 41869 * g - 8131 * b) / 100000 + COLOR_SHIFT
}

/// A fixed-point level as a byte: its whole part, limited to `0..=255`.
pub open spec fn to_sample(level: int) -> u8 {
    clamp(floor_to_whole(level), 0, 255) as u8
}

/// The three bytes of a colour: its luma and its two chroma levels.
pub open spec fn yuv_of(color: Rgb) -> Yuv {
    Yuv {
        y: to_sample(luma(color.r as int, color.g as int, color.b as int)),
        u: to_sample(chroma_u(color.r as int, color.g as int, color.b as int)),
        v: to_sample(chroma_v(color.r as int, color.g as int, color.b as int)),
    }
}

/// The colour of column `x` of the gradient from `start` to `end` over
/// `width` columns.  Each level lies between the two given levels (see
/// [`lemma_interpolate_between`]), so it is a level again.
pub open spec fn gradient_color(start: Rgb, end: Rgb, x: int, width: int) -> Rgb {
    Rgb {
        r: interpolate(start.r as int, end.r as int, x, width) as i64,
        g: interpolate(start.g as int, end.g as int, x, width) as i64,
        b: interpolate(start.b as int, end.b as int, x, width) as i64,
    }
}

/// `table` is the gradient from `start` to `end` over `width` columns.
pub open spec fn is_gradient(table: Seq<Rgb>, width: int, start: Rgb, end: Rgb) -> bool {
    &&& table.len() == width
    &&& forall|x: int| 0 <= x < width ==> #[trigger] table[x] == gradient_color(start, end, x, width)
}

/// `row` holds the bytes of each colour of `table`, in the same order.
pub open spec fn is_converted(row: Seq<Yuv>, table: Seq<Rgb>) -> bool {
    &&& row.len() == table.len()
    &&& forall|x: int| 0 <= x < table.len() ==> #[trigger] row[x] == yuv_of(table[x])
}

/// Luma of a colour in fixed point.
pub fn calculate_y(r: i64, g: i64, b: i64) -> (y: i64)
    ensures
        y == luma(r as int, g as int, b as int),
{
    let sum: i128 = 299 * (r as i128) + 587 * (g as i128) + 114 * (b as i128);
    floor_div(sum, 1000) as i64
}

/// Blue-difference chroma of a colour, before it is narrowed to `i64`.
fn wide_u(r: i64, g: i64, b: i64) -> (u: i128)
    ensures
        u == chroma_u(r as int, g as int, b as int),
{
    let sum: i128 = 50000 * (b as i128) - 16874 * (r as i128) - 33126 * (g as i128);
    floor_div(sum, 100000) + COLOR_SHIFT as i128
}

/// Red-difference chroma of a colour, before it is narrowed to `i64`.
fn wide_v(r: i64, g: i64, b: i64) -> (v: i128)
    ensures
        v == chroma_v(r as int, g as int, b as int),
{
    let sum: i128 = 50000 * (r as i128) - 41869 * (g as i128) - 8131 * (b as i128);
    floor_div(sum, 100000) + COLOR_SHIFT as i128
}

/// Blue-difference chroma of a colour in fixed point, shifted by 128.
pub fn calculate_u(r: i64, g: i64, b: i64) -> (u: i64)
    requires
        chroma_u(r as int, g as int, b as int) <= i64::MAX,
    ensures
        u == chroma_u(r as int, g as int, b as int),
{
    wide_u(r, g, b) as i64
}

/// Red-difference chroma of a colour in fixed point, shifted by 128.
pub fn calculate_v(r: i64, g: i64, b: i64) -> (v: i64)
    requires
        chroma_v(r as int, g as int, b as int) <= i64::MAX,
    ensures
        v == chroma_v(r as int, g as int, b as int),
{
    wide_v(r, g, b) as i64
}

/// Narrows a fixed-point level to a byte.
pub fn sample_of(level: i128) -> (s: u8)
    ensures
        s == to_sample(level as int),
{
    let whole: i128 = floor_div(level, ONE as i128);
    if whole < 0 {
        0
    } else if whole > 255 {
        255
    } else {
        whole as u8
    }
}

/// Converts one colour to luma and chroma bytes.
pub fn rgb_to_yuv(color: Rgb) -> (bytes: Yuv)
    ensures
        bytes == yuv_of(color),
{
    Yuv {
        y: sample_of(calculate_y(color.r, color.g, color.b) as i128),
        u: sample_of(wide_u(color.r, color.g, color.b)),
        v: sample_of(wide_v(color.r, color.g, color.b)),
    }
}

/// Between the edges of the gradient every level lies between the level
/// at the left edge and the level at the right edge.
pub proof fn lemma_interpolate_between(start: int, end: int, x: int, width: int)
    requires
        0 <= x < width,
    ensures
        start <= interpolate(start, end, x, width) <= end || end <= interpolate(
            start,
            end,
            x,
            width,
        ) <= start,
        x == 0 ==> interpolate(start, end, x, width) == start,
        x == width - 1 && width > 1 ==> interpolate(start, end, x, width) == end,
{
    if width > 1 {
        let last = width - 1;
        let span = if end >= start {
            end - start
        } else {
            start - end
        };
        assert(0 <= span * x <= span * last) by (nonlinear_arith)
            requires
                0 <= span,
                0 <= x <= last,
        ;
        assert(0 <= (span * x) / last <= span) by (nonlinear_arith)
            requires
                0 <= span * x <= span * last,
                last > 0,
        ;
        assert(x == last ==> (span * x) / last == span) by (nonlinear_arith)
            requires
                last > 0,
                0 <= span,
        ;
        assert(x == 0 ==> span * x == 0) by (nonlinear_arith);
        if end >= start {
            assert((end - start) * x == span * x);
        } else {
            assert(-((end - start) * x) == span * x) by (nonlinear_arith)
                requires
                    span == start - end,
            ;
            if span * x == 0 {
                assert((end - start) * x == 0);
            }
        }
    }
}

/// The level of one channel at column `x`.
pub fn interpolate_channel(start: i64, end: i64, x: usize, width: usize) -> (level: i64)
    requires
        x < width,
    ensures
        level == interpolate(start as int, end as int, x as int, width as int),
        start <= level <= end || end <= level <= start,
{
    if width <= 1 {
        return start;
    }
    let last: u128 = (width - 1) as u128;
    let column: u128 = x as u128;
    if end >= start {
        let span: u128 = (end as i128 - start as i128) as u128;
        assert(span * column <= span * last <= 0xffff_ffff_ffff_ffff * 0xffff_ffff_ffff_ffff)
            by (nonlinear_arith)
            requires
                0 <= span <= 0xffff_ffff_ffff_ffff,
                0 <= column <= last <= 0xffff_ffff_ffff_ffff,
        ;
        let step: u128 = (span * column) / last;
        assert(step <= span) by (nonlinear_arith)
            requires
                step == (span * column) / (last as int),
                span * column <= span * last,
                last > 0,
        ;
        (start as i128 + step as i128) as i64
    } else {
        let span: u128 = (start as i128 - end as i128) as u128;
        assert(span * column <= span * last <= 0xffff_ffff_ffff_ffff * 0xffff_ffff_ffff_ffff)
            by (nonlinear_arith)
            requires
                0 <= span <= 0xffff_ffff_ffff_ffff,
                0 <= column <= last <= 0xffff_ffff_ffff_ffff,
        ;
        let step: u128 = (span * column) / last;
        assert(step <= span) by (nonlinear_arith)
            requires
                step == (span * column) / (last as int),
                span * column <= span * last,
                last > 0,
        ;
        assert((end - start) * column == -(span * column)) by (nonlinear_arith)
            requires
                span == start - end,
        ;
        if span * column == 0 {
            assert((end - start) * column == 0);
        }
        (start as i128 - step as i128) as i64
    }
}

/// The gradient from `start_color` to `end_color` over `width` columns.
pub fn precalculate_gradient(width: usize, start_color: Rgb, end_color: Rgb) -> (table: Vec<Rgb>)
    ensures
        is_gradient(table@, width as int, start_color, end_color),
{
    let mut table: Vec<Rgb> = Vec::new();
    let mut x: usize = 0;
    while x < width
        invariant
            x <= width,
            table@.len() == x,
            forall|k: int|
                0 <= k < x ==> #[trigger] table@[k] == gradient_color(
                    start_color,
                    end_color,
                    k,
                    width as int,
                ),
        decreases width - x,
    {
        let color = Rgb {
            r: interpolate_channel(start_color.r, end_color.r, x, width),
            g: interpolate_channel(start_color.g, end_color.g, x, width),
            b: interpolate_channel(start_color.b, end_color.b, x, width),
        };
        table.push(color);
        x += 1;
    }
    table
}

/// Converts every colour of the table on rayon's thread pool.
///
/// The call is `par_iter().map(..).collect()` of the crate `rayon`, with
/// [`rgb_to_yuv`] as the function that is mapped.  Trusted: `map` hands
/// each item of the table to the function exactly once, and `collect`
/// into a `Vec` keeps the items of an indexed parallel iterator in the
/// order of their source, whatever the order in which the threads finish.
#[verifier::external_body]
fn convert_in_parallel(table: &Vec<Rgb>) -> (row: Vec<Yuv>)
    ensures
        is_converted(row@, table@),
{
    table.par_iter().map(|color| rgb_to_yuv(*color)).collect()
}

/// Converts a table of colours to luma and chroma bytes, column by column.
pub fn precalculate_yuv(table: &Vec<Rgb>) -> (row: Vec<Yuv>)
    ensures
        is_converted(row@, table@),
{
    convert_in_parallel(table)
}

/// The row of bytes that paints `background` across `width` columns.
pub fn background_row(width: usize, background: &BackgroundSpec) -> (row: Vec<Yuv>)
    ensures
        row@.len() == width,
        forall|x: int|
            0 <= x < width ==> #[trigger] row@[x] == yuv_of(
                gradient_color(background.start_rgb, background.end_rgb, x, width as int),
            ),
{
    let table: Vec<Rgb> = precalculate_gradient(width, background.start_rgb, background.end_rgb);
    precalculate_yuv(&table)
}

} // verus!
