//! Building the canvas of a frame: the gradient background with a smaller
//! copy of the recording, the inset, pasted into its centre.

use crate::fixed::ONE;
use crate::focus::INSET_SCALE;
use crate::frame::{chroma_length, CanvasFrame};
use crate::gradient::Yuv;
use vstd::prelude::*;

verus! {

/// The length of a side of the inset for a recording with a side of
/// `length` pixels: eight tenths of it, rounded down.
pub open spec fn inset_length(length: int) -> int {
    length * INSET_SCALE / (ONE as int)
}

/// The distance from the edge of the canvas to the inset along one axis,
/// so that the inset sits in the centre.
pub open spec fn inset_offset(canvas: int, inset: int) -> int {
    (canvas - inset) / 2
}

/// `(x, y)` lies in the rectangle of `width` by `height` positions that
/// begins at `(left, top)`.
pub open spec fn in_rect(x: int, y: int, left: int, top: int, width: int, height: int) -> bool {
    left <= x < left + width && top <= y < top + height
}

/// The luma position `(x, y)` of the canvas shows the inset.
pub open spec fn on_inset(canvas: &CanvasFrame, inset: &CanvasFrame, x: int, y: int) -> bool {
    in_rect(
        x,
        y,
        inset_offset(canvas.width as int, inset.width as int),
        inset_offset(canvas.height as int, inset.height as int),
        inset.width as int,
        inset.height as int,
    )
}

/// The chroma position `(x, y)` of the canvas shows the inset: the chroma
/// samples of the inset lie at half its offset.
pub open spec fn on_inset_chroma(canvas: &CanvasFrame, inset: &CanvasFrame, x: int, y: int) -> bool {
    in_rect(
        x,
        y,
        inset_offset(canvas.width as int, inset.width as int) / 2,
        inset_offset(canvas.height as int, inset.height as int) / 2,
        chroma_length(inset.width as int),
        chroma_length(inset.height as int),
    )
}

/// The column of the inset that the luma column `x` of the canvas shows.
pub open spec fn inset_x(canvas: &CanvasFrame, inset: &CanvasFrame, x: int) -> int {
    x - inset_offset(canvas.width as int, inset.width as int)
}

/// The row of the inset that the luma row `y` of the canvas shows.
pub open spec fn inset_y(canvas: &CanvasFrame, inset: &CanvasFrame, y: int) -> int {
    y - inset_offset(canvas.height as int, inset.height as int)
}

/// The chroma column of the inset that the chroma column `x` of the canvas
/// shows.
pub open spec fn inset_chroma_x(canvas: &CanvasFrame, inset: &CanvasFrame, x: int) -> int {
    x - inset_offset(canvas.width as int, inset.width as int) / 2
}

/// The chroma row of the inset that the chroma row `y` of the canvas shows.
pub open spec fn inset_chroma_y(canvas: &CanvasFrame, inset: &CanvasFrame, y: int) -> int {
    y - inset_offset(canvas.height as int, inset.height as int) / 2
}

/// The size of the inset for a recording of `width` by `height` pixels.
pub fn inset_dimensions(width: u32, height: u32) -> (size: (u32, u32))
    ensures
        size.0 == inset_length(width as int),
        size.1 == inset_length(height as int),
        size.0 <= width,
        size.1 <= height,
{
    assert(INSET_SCALE == 800_000 && ONE == 1_000_000);
    let w: u64 = (width as u64) * 800_000 / 1_000_000;
    let h: u64 = (height as u64) * 800_000 / 1_000_000;
    (w as u32, h as u32)
}

/// Where the inset begins on the canvas.
pub fn inset_offsets(canvas_width: u32, canvas_height: u32, inset_width: u32, inset_height: u32) -> (at: (
    u32,
    u32,
))
    requires
        inset_width <= canvas_width,
        inset_height <= canvas_height,
    ensures
        at.0 == inset_offset(canvas_width as int, inset_width as int),
        at.1 == inset_offset(canvas_height as int, inset_height as int),
        at.0 + inset_width <= canvas_width,
        at.1 + inset_height <= canvas_height,
{
    ((canvas_width - inset_width) / 2, (canvas_height - inset_height) / 2)
}

/// Paints the background: every row of the luma plane shows the luma of
/// the row of colours, and every row of a chroma plane shows the chroma
/// of its even columns, one sample for each block of two by two pixels.
pub fn paint_background(canvas: &mut CanvasFrame, row: &Vec<Yuv>)
    requires
        old(canvas).wf(),
        row@.len() >= old(canvas).width,
    ensures
        final(canvas).wf(),
        final(canvas).width == old(canvas).width,
        final(canvas).height == old(canvas).height,
        final(canvas).pts == old(canvas).pts,
        final(canvas).luma.same_layout(&old(canvas).luma),
        final(canvas).chroma_u.same_layout(&old(canvas).chroma_u),
        final(canvas).chroma_v.same_layout(&old(canvas).chroma_v),
        forall|x: int, y: int|
            final(canvas).luma.holds(x, y) ==> #[trigger] final(canvas).luma.sample(x, y)
                == row@[x].y,
        forall|x: int, y: int|
            final(canvas).chroma_u.holds(x, y) ==> #[trigger] final(canvas).chroma_u.sample(x, y)
                == row@[2 * x].u,
        forall|x: int, y: int|
            final(canvas).chroma_v.holds(x, y) ==> #[trigger] final(canvas).chroma_v.sample(x, y)
                == row@[2 * x].v,
{
    let width: usize = canvas.width as usize;
    let half: usize = width / 2 + width % 2;
    let mut luma_row: Vec<u8> = Vec::new();
    let mut x: usize = 0;
    while x < width
        invariant
            x <= width,
            width <= row@.len(),
            luma_row@.len() == x,
            forall|k: int| 0 <= k < x ==> luma_row@[k] == row@[k].y,
        decreases width - x,
    {
        luma_row.push(row[x].y);
        x += 1;
    }
    let mut u_row: Vec<u8> = Vec::new();
    let mut v_row: Vec<u8> = Vec::new();
    let mut c: usize = 0;
    while c < half
        invariant
            c <= half,
            half == chroma_length(width as int),
            width <= row@.len(),
            u_row@.len() == c,
            v_row@.len() == c,
            forall|k: int| 0 <= k < c ==> u_row@[k] == row@[2 * k].u,
            forall|k: int| 0 <= k < c ==> v_row@[k] == row@[2 * k].v,
        decreases half - c,
    {
        u_row.push(row[2 * c].u);
        v_row.push(row[2 * c].v);
        c += 1;
    }
    canvas.luma.paint_columns(&luma_row);
    canvas.chroma_u.paint_columns(&u_row);
    canvas.chroma_v.paint_columns(&v_row);
}

/// Pastes the inset into the centre of the canvas.
///
/// Luma rows are copied as they are.  Of the chroma planes the samples
/// of the even rows and columns of the inset are copied, to half the
/// offset.  Everything around the inset stays as it is.
pub fn paste_inset(canvas: &mut CanvasFrame, inset: &CanvasFrame)
    requires
        old(canvas).wf(),
        inset.wf(),
        inset.width <= old(canvas).width,
        inset.height <= old(canvas).height,
    ensures
        final(canvas).wf(),
        final(canvas).width == old(canvas).width,
        final(canvas).height == old(canvas).height,
        final(canvas).pts == old(canvas).pts,
        final(canvas).luma.same_layout(&old(canvas).luma),
        final(canvas).chroma_u.same_layout(&old(canvas).chroma_u),
        final(canvas).chroma_v.same_layout(&old(canvas).chroma_v),
        forall|x: int, y: int|
            old(canvas).luma.covers(x, y) ==> #[trigger] final(canvas).luma.sample(x, y) == if on_inset(
                old(canvas),
                inset,
                x,
                y,
            ) {
                inset.luma.sample(inset_x(old(canvas), inset, x), inset_y(old(canvas), inset, y))
            } else {
                old(canvas).luma.sample(x, y)
            },
        forall|x: int, y: int|
            old(canvas).chroma_u.covers(x, y) ==> #[trigger] final(canvas).chroma_u.sample(x, y)
                == if on_inset_chroma(old(canvas), inset, x, y) {
                inset.chroma_u.sample(
                    inset_chroma_x(old(canvas), inset, x),
                    inset_chroma_y(old(canvas), inset, y),
                )
            } else {
                old(canvas).chroma_u.sample(x, y)
            },
        forall|x: int, y: int|
            old(canvas).chroma_v.covers(x, y) ==> #[trigger] final(canvas).chroma_v.sample(x, y)
                == if on_inset_chroma(old(canvas), inset, x, y) {
                inset.chroma_v.sample(
                    inset_chroma_x(old(canvas), inset, x),
                    inset_chroma_y(old(canvas), inset, y),
                )
            } else {
                old(canvas).chroma_v.sample(x, y)
            },
{
    let at: (u32, u32) = inset_offsets(canvas.width, canvas.height, inset.width, inset.height);
    let left: usize = at.0 as usize;
    let top: usize = at.1 as usize;
    let width: usize = inset.width as usize;
    let height: usize = inset.height as usize;
    let half_width: usize = width / 2 + width % 2;
    let half_height: usize = height / 2 + height % 2;
    canvas.luma.copy_from(&inset.luma, 0, 0, left, top, width, height);
    canvas.chroma_u.copy_from(&inset.chroma_u, 0, 0, left / 2, top / 2, half_width, half_height);
    canvas.chroma_v.copy_from(&inset.chroma_v, 0, 0, left / 2, top / 2, half_width, half_height);
}

/// Builds the canvas of one frame: the background, then the inset.
///
/// Where the inset lies the canvas shows the inset, and around it the
/// gradient.
pub fn compose(canvas: &mut CanvasFrame, row: &Vec<Yuv>, inset: &CanvasFrame)
    requires
        old(canvas).wf(),
        inset.wf(),
        row@.len() >= old(canvas).width,
        inset.width <= old(canvas).width,
        inset.height <= old(canvas).height,
    ensures
        final(canvas).wf(),
        final(canvas).width == old(canvas).width,
        final(canvas).height == old(canvas).height,
        final(canvas).pts == old(canvas).pts,
        final(canvas).luma.same_layout(&old(canvas).luma),
        final(canvas).chroma_u.same_layout(&old(canvas).chroma_u),
        final(canvas).chroma_v.same_layout(&old(canvas).chroma_v),
        forall|x: int, y: int|
            final(canvas).luma.holds(x, y) ==> #[trigger] final(canvas).luma.sample(x, y) == if on_inset(
                old(canvas),
                inset,
                x,
                y,
            ) {
                inset.luma.sample(inset_x(old(canvas), inset, x), inset_y(old(canvas), inset, y))
            } else {
                row@[x].y
            },
        forall|x: int, y: int|
            final(canvas).chroma_u.holds(x, y) ==> #[trigger] final(canvas).chroma_u.sample(x, y)
                == if on_inset_chroma(old(canvas), inset, x, y) {
                inset.chroma_u.sample(
                    inset_chroma_x(old(canvas), inset, x),
                    inset_chroma_y(old(canvas), inset, y),
                )
            } else {
                row@[2 * x].u
            },
        forall|x: int, y: int|
            final(canvas).chroma_v.holds(x, y) ==> #[trigger] final(canvas).chroma_v.sample(x, y)
                == if on_inset_chroma(old(canvas), inset, x, y) {
                inset.chroma_v.sample(
                    inset_chroma_x(old(canvas), inset, x),
                    inset_chroma_y(old(canvas), inset, y),
                )
            } else {
                row@[2 * x].v
            },
{
    paint_background(canvas, row);
    paste_inset(canvas, inset);
}

} // verus!
