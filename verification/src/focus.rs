//! Choosing the focal point of a zoom: the first mouse sample at or after a
//! given time, mapped from device coordinates onto the canvas.

use crate::config::MouseEvent;
use crate::fixed::{clamp, clamp_wide, floor_div, pixels, ONE};
use vstd::prelude::*;

verus! {

/// The share of the canvas that the inset recording covers along each axis:
/// eight tenths.
pub const INSET_SCALE: i64 = 800_000;

/// The share of the canvas that is left free on each side of the inset:
/// one tenth.
pub const INSET_MARGIN: i64 = 100_000;

/// The index of the first event from `from` on whose timestamp is at or
/// after `time_ms`.  The events need not be sorted.
pub open spec fn first_at_or_after(events: Seq<MouseEvent>, time_ms: int, from: int) -> Option<int>
    decreases events.len() - from,
{
    if from < 0 || from >= events.len() {
        None
    } else if events[from].timestamp_ms >= time_ms {
        Some(from)
    } else {
        first_at_or_after(events, time_ms, from + 1)
    }
}

/// A device coordinate on the canvas, as a fixed-point position.
///
/// The coordinate is multiplied by the DPI scale and the window's origin
/// is subtracted, which gives the place inside the recording.  That place
/// is enlarged with the canvas, shrunk to the inset and shifted by the
/// inset's margin.
pub open spec fn to_canvas(
    coordinate: int,
    scale_factor: int,
    upscale: int,
    origin: int,
    canvas: int,
) -> int {
    ((coordinate * scale_factor - origin * ONE) * upscale) * INSET_SCALE / (ONE as int) + canvas
        * INSET_MARGIN
}

/// Searches the mouse log for the first event at or after `time_ms`.
pub fn find_event_at_or_after(events: &Vec<MouseEvent>, time_ms: i32) -> (found: Option<usize>)
    ensures
        match found {
            Some(i) => {
                &&& i < events@.len()
                &&& events@[i as int].timestamp_ms >= time_ms
                &&& forall|j: int| 0 <= j < i ==> (#[trigger] events@[j]).timestamp_ms < time_ms
                &&& first_at_or_after(events@, time_ms as int, 0) == Some(i as int)
            },
            None => {
                &&& forall|j: int|
                    0 <= j < events@.len() ==> (#[trigger] events@[j]).timestamp_ms < time_ms
                &&& first_at_or_after(events@, time_ms as int, 0) is None
            },
        },
{
    let mut i: usize = 0;
    while i < events.len()
        invariant
            i <= events@.len(),
            forall|j: int| 0 <= j < i ==> (#[trigger] events@[j]).timestamp_ms < time_ms,
            first_at_or_after(events@, time_ms as int, 0) == first_at_or_after(
                events@,
                time_ms as int,
                i as int,
            ),
        decreases events@.len() - i,
    {
        if events[i].timestamp_ms >= time_ms {
            return Some(i);
        }
        i += 1;
    }
    None
}

/// Maps one device coordinate onto the canvas and limits it to the canvas.
pub fn map_to_canvas(coordinate: u32, scale_factor: i64, upscale: u32, origin: i32, canvas: u32) -> (p: i64)
    ensures
        p == clamp(
            to_canvas(
                coordinate as int,
                scale_factor as int,
                upscale as int,
                origin as int,
                canvas as int,
            ),
            0,
            canvas * ONE,
        ),
        0 <= p <= canvas * ONE,
{
    let c: i128 = coordinate as i128;
    let u: i128 = upscale as i128;
    let s: i128 = scale_factor as i128;
    assert(-0x7fff_ffff_8000_0000_0000_0000 <= c * s <= 0x7fff_ffff_8000_0000_0000_0000)
        by (nonlinear_arith)
        requires
            0 <= c <= 0xffff_ffff,
            -0x8000_0000_0000_0000 <= s <= 0x7fff_ffff_ffff_ffff,
    ;
    let inside: i128 = c * s - (origin as i128) * (ONE as i128);
    assert(-0x7fff_ffff_2000_0000_0000_0000_0000_0000 <= inside * u
        <= 0x7fff_ffff_2000_0000_0000_0000_0000_0000) by (nonlinear_arith)
        requires
            -0x7fff_ffff_9000_0000_0000_0000 <= inside <= 0x7fff_ffff_9000_0000_0000_0000,
            0 <= u <= 0xffff_ffff,
    ;
    let shifted: i128 = inside * u;
    // shifted * INSET_SCALE / ONE is shifted * 4 / 5, taken in two parts so
    // that nothing overflows.
    let fifth: i128 = floor_div(shifted, 5);
    let rest: i128 = shifted - 5 * fifth;
    let inset: i128 = 4 * fifth + (4 * rest) / 5;
    assert(inset == (shifted * INSET_SCALE) / (ONE as int));
    assert(-0x7000_0000_0000_0000_0000_0000_0000_0000 <= inset
        <= 0x7000_0000_0000_0000_0000_0000_0000_0000);
    assert(0 <= canvas * INSET_MARGIN <= 0xffff_ffff * 100_000) by (nonlinear_arith)
        requires
            0 <= canvas <= 0xffff_ffff,
            INSET_MARGIN == 100_000,
    ;
    let margin: i128 = (canvas as i128) * (INSET_MARGIN as i128);
    let on_canvas: i128 = inset + margin;
    let limit: i64 = pixels(canvas);
    clamp_wide(on_canvas, 0, limit)
}

} // verus!
