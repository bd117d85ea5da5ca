//! Taking the crop out of the canvas, and stamping the finished frame.
//!
//! The luma plane is cut at the crop's own coordinates.  The chroma planes
//! have half the resolution, so they are cut at half the coordinates,
//! rounded down: an odd coordinate is treated as the even one below it.

use crate::camera::CropRect;
use crate::frame::{CanvasFrame, Plane};
use vstd::prelude::*;

verus! {

/// A time base: the length of one tick in seconds, as a fraction.
#[derive(Clone, Copy, Debug, PartialEq, Eq)]
pub struct TimeBase {
    pub num: i32,
    pub den: i32,
}

/// Where the planes of a crop begin in the buffers of the canvas.
#[derive(Clone, Copy, Debug, PartialEq, Eq)]
pub struct PlaneOffsets {
    pub luma: usize,
    pub chroma_u: usize,
    pub chroma_v: usize,
}

/// The crop lies inside the frame and is not empty.
pub open spec fn crop_inside(rect: CropRect, frame: &CanvasFrame) -> bool {
    &&& 1 <= rect.width
    &&& 1 <= rect.height
    &&& rect.left + rect.width <= frame.width
    &&& rect.top + rect.height <= frame.height
}

/// `value` ticks of the time base `from`, in ticks of the time base `to`,
/// rounded to the nearest tick with halves going up.
pub open spec fn rescaled(value: int, from: TimeBase, to: TimeBase) -> int {
    (value * (from.num * to.den) + (from.den * to.num) / 2) / (from.den * to.num)
}

/// The two time bases can be converted: the divisor is positive and the
/// multiplier is not negative.
pub open spec fn convertible(from: TimeBase, to: TimeBase) -> bool {
    from.den * to.num > 0 && from.num * to.den >= 0
}

/// The presentation timestamp of the frame with the given index: the
/// index, counted in ticks of the encoder's time base, converted to the
/// time base of the output stream.
///
/// There is no timestamp if the time bases cannot be converted or if the
/// result does not fit in 64 bits.
pub fn presentation_timestamp(frame_index: u32, encoder: TimeBase, stream: TimeBase) -> (pts: Option<
    i64,
>)
    ensures
        pts is Some <==> convertible(encoder, stream) && rescaled(
            frame_index as int,
            encoder,
            stream,
        ) <= i64::MAX,
        pts matches Some(t) ==> t == rescaled(frame_index as int, encoder, stream) && t >= 0,
{
    assert(-0x4000_0000_0000_0000 <= encoder.num * stream.den <= 0x4000_0000_0000_0000)
        by (nonlinear_arith)
        requires
            -0x8000_0000 <= encoder.num <= 0x7fff_ffff,
            -0x8000_0000 <= stream.den <= 0x7fff_ffff,
    ;
    assert(-0x4000_0000_0000_0000 <= encoder.den * stream.num <= 0x4000_0000_0000_0000)
        by (nonlinear_arith)
        requires
            -0x8000_0000 <= encoder.den <= 0x7fff_ffff,
            -0x8000_0000 <= stream.num <= 0x7fff_ffff,
    ;
    let multiplier: i64 = (encoder.num as i64) * (stream.den as i64);
    let divisor: i64 = (encoder.den as i64) * (stream.num as i64);
    if divisor <= 0 || multiplier < 0 {
        return None;
    }
    assert(0 <= frame_index * multiplier <= 0xffff_ffff * 0x4000_0000_0000_0000) by (nonlinear_arith)
        requires
            0 <= frame_index <= 0xffff_ffff,
            0 <= multiplier <= 0x4000_0000_0000_0000,
    ;
    let scaled: i128 = (frame_index as i128) * (multiplier as i128) + (divisor as i128) / 2;
    let ticks: i128 = scaled / (divisor as i128);
    if ticks > i64::MAX as i128 {
        None
    } else {
        Some(ticks as i64)
    }
}

/// Where the crop begins in each plane's buffer: row times stride plus
/// column, at the crop's coordinates for luma and at half of them for
/// chroma.
pub fn plane_offsets(canvas: &CanvasFrame, rect: &CropRect) -> (at: PlaneOffsets)
    requires
        canvas.wf(),
        crop_inside(*rect, canvas),
    ensures
        at.luma == rect.top * canvas.luma.stride + rect.left,
        at.chroma_u == (rect.top / 2) * canvas.chroma_u.stride + rect.left / 2,
        at.chroma_v == (rect.top / 2) * canvas.chroma_v.stride + rect.left / 2,
        at.luma < canvas.luma.data@.len(),
        at.chroma_u < canvas.chroma_u.data@.len(),
        at.chroma_v < canvas.chroma_v.data@.len(),
{
    let left: usize = rect.left as usize;
    let top: usize = rect.top as usize;
    PlaneOffsets {
        luma: canvas.luma.offset(left, top),
        chroma_u: canvas.chroma_u.offset(left / 2, top / 2),
        chroma_v: canvas.chroma_v.offset(left / 2, top / 2),
    }
}

/// Copies the crop out of the canvas into a frame of the crop's size.
///
/// Each sample of the result is the sample of the canvas at the same
/// place inside the crop.  The timestamp is carried over.  A crop of the
/// whole canvas gives the picture of the canvas again.
pub fn extract_region(canvas: &CanvasFrame, rect: &CropRect) -> (region: CanvasFrame)
    requires
        canvas.wf(),
        rect.left + rect.width <= canvas.width,
        rect.top + rect.height <= canvas.height,
    ensures
        region.wf(),
        region.width == rect.width,
        region.height == rect.height,
        region.pts == canvas.pts,
        forall|x: int, y: int|
            region.luma.holds(x, y) ==> #[trigger] region.luma.sample(x, y) == canvas.luma.sample(
                rect.left + x,
                rect.top + y,
            ),
        forall|x: int, y: int|
            region.chroma_u.holds(x, y) ==> #[trigger] region.chroma_u.sample(x, y)
                == canvas.chroma_u.sample(rect.left / 2 + x, rect.top / 2 + y),
        forall|x: int, y: int|
            region.chroma_v.holds(x, y) ==> #[trigger] region.chroma_v.sample(x, y)
                == canvas.chroma_v.sample(rect.left / 2 + x, rect.top / 2 + y),
        rect.is_whole(canvas.width as int, canvas.height as int) ==> region.same_picture(canvas),
{
    let left: usize = rect.left as usize;
    let top: usize = rect.top as usize;
    let width: usize = rect.width as usize;
    let height: usize = rect.height as usize;
    let half_width: usize = width / 2 + width % 2;
    let half_height: usize = height / 2 + height % 2;
    let luma: Plane = canvas.luma.region(left, top, width, height);
    let chroma_u: Plane = canvas.chroma_u.region(left / 2, top / 2, half_width, half_height);
    let chroma_v: Plane = canvas.chroma_v.region(left / 2, top / 2, half_width, half_height);
    CanvasFrame { width: rect.width, height: rect.height, luma, chroma_u, chroma_v, pts: canvas.pts }
}

} // verus!
