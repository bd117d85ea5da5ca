//! What holds of a run with a single zoom interval whose factor is at most
//! one: before the interval the camera shows the whole canvas, inside it
//! the crop shrinks toward the interval's share and never passes it, and
//! afterwards the crop grows back toward the whole canvas and never
//! passes that.
//!
//! The crop follows the filtered size only while the second smoothing is
//! off, so what is said of the crop assumes that; what is said of the
//! filtered size holds either way.

use crate::animation::lemma_step_stays_between;
use crate::camera::{
    crop_length, lemma_state_at_keeps_wf, lemma_target_bounds, time_at, CameraConfig, CameraModel,
    Phase,
};
use crate::config::ZoomInterval;
use crate::fixed::{even_floor, ONE};
use vstd::prelude::*;

verus! {

/// The configuration has one zoom interval, and its factor is at most one.
pub open spec fn single_zoom(cfg: CameraConfig) -> bool {
    cfg.wf() && cfg.intervals@.len() == 1 && cfg.intervals@[0].zoom_factor <= ONE
}

/// The time lies inside the interval.
pub open spec fn inside(interval: ZoomInterval, time_ms: int) -> bool {
    interval.start_ms <= time_ms < interval.end_ms
}

/// The time lies in the window of `length_ms` after the interval, and not
/// inside the interval.
pub open spec fn after(interval: ZoomInterval, time_ms: int, length_ms: int) -> bool {
    interval.end_ms <= time_ms < interval.end_ms + length_ms && !inside(interval, time_ms)
}

/// The size of the crop lies between the share `zoom` of the canvas and
/// the whole canvas, and the target is that share while the camera zooms
/// in and the whole canvas otherwise.
pub open spec fn in_range(cfg: CameraConfig, s: CameraModel, zoom: int) -> bool {
    &&& cfg.canvas_width * zoom <= s.current_width <= cfg.width_limit()
    &&& cfg.canvas_height * zoom <= s.current_height <= cfg.height_limit()
    &&& s.zooming_in ==> s.target_multiplier == zoom
    &&& !s.zooming_in ==> s.target_multiplier == ONE
    &&& s.phase() == Phase::Idle ==> s.current_width == cfg.width_limit() && s.current_height
        == cfg.height_limit()
}

/// The state `a` has a crop at most as large as that of `b`.
pub open spec fn crop_at_most(cfg: CameraConfig, a: CameraModel, b: CameraModel) -> bool {
    cfg.crop_width(a) <= cfg.crop_width(b) && cfg.crop_height(a) <= cfg.crop_height(b)
}

/// With one interval the rule of the list is the rule of that interval.
proof fn lemma_one_interval(cfg: CameraConfig, s: CameraModel, time_ms: int)
    requires
        cfg.intervals@.len() == 1,
    ensures
        cfg.apply_intervals(s, cfg.intervals@, time_ms) == cfg.apply_interval(
            s,
            cfg.intervals@[0],
            time_ms,
        ),
{
    assert(cfg.intervals@.drop_last().len() == 0);
    assert(cfg.apply_intervals(s, cfg.intervals@.drop_last(), time_ms) == s);
}

/// The crop grows with the filtered size: while the second smoothing is
/// off, a state with the smaller size has the smaller crop.
pub proof fn lemma_crop_follows_size(cfg: CameraConfig, a: CameraModel, b: CameraModel)
    requires
        !cfg.settings.dimension_smoothing,
        a.current_width <= b.current_width,
        a.current_height <= b.current_height,
    ensures
        crop_at_most(cfg, a, b),
{
}

/// One frame of a run with a single interval.
///
/// Inside the interval the camera zooms in, in the window after it the
/// camera does not.  While the camera zooms in its size falls, down to
/// the interval's share at most; while it does not, its size rises, up to
/// the whole canvas at most.  The size falls by at least one unit as long
/// as its distance from the interval's share, times the decay, reaches
/// one.
pub proof fn lemma_single_zoom_frame(cfg: CameraConfig, s: CameraModel, time_ms: int)
    requires
        single_zoom(cfg),
        s.wf(cfg),
        in_range(cfg, s, cfg.intervals@[0].zoom_factor as int),
    ensures
        cfg.state_at(s, time_ms).wf(cfg),
        in_range(cfg, cfg.state_at(s, time_ms), cfg.intervals@[0].zoom_factor as int),
        inside(cfg.intervals@[0], time_ms) ==> cfg.state_at(s, time_ms).zooming_in,
        after(cfg.intervals@[0], time_ms, cfg.settings.animation_duration_ms as int)
            ==> !cfg.state_at(s, time_ms).zooming_in,
        !inside(cfg.intervals@[0], time_ms) && s.phase() == Phase::Idle ==> cfg.state_at(
            s,
            time_ms,
        ).phase() == Phase::Idle,
        cfg.state_at(s, time_ms).zooming_in ==> cfg.state_at(s, time_ms).current_width
            <= s.current_width && cfg.state_at(s, time_ms).current_height <= s.current_height,
        !cfg.state_at(s, time_ms).zooming_in ==> cfg.state_at(s, time_ms).current_width
            >= s.current_width && cfg.state_at(s, time_ms).current_height >= s.current_height,
        cfg.state_at(s, time_ms).zooming_in && (s.current_width - cfg.canvas_width
            * cfg.intervals@[0].zoom_factor) * cfg.settings.decay >= ONE ==> cfg.state_at(
            s,
            time_ms,
        ).current_width < s.current_width,
        cfg.state_at(s, time_ms).zooming_in && (s.current_height - cfg.canvas_height
            * cfg.intervals@[0].zoom_factor) * cfg.settings.decay >= ONE ==> cfg.state_at(
            s,
            time_ms,
        ).current_height < s.current_height,
{
    let zoom = cfg.intervals@[0].zoom_factor as int;
    lemma_one_interval(cfg, s, time_ms);
    lemma_state_at_keeps_wf(cfg, s, time_ms);
    let z = cfg.apply_interval(s, cfg.intervals@[0], time_ms);
    let decay = cfg.settings.decay as int;
    lemma_target_bounds(cfg.canvas_width as int, ONE as int);
    lemma_target_bounds(cfg.canvas_height as int, ONE as int);
    assert(cfg.canvas_width * zoom <= cfg.canvas_width * ONE && cfg.canvas_height * zoom
        <= cfg.canvas_height * ONE) by (nonlinear_arith)
        requires
            0 < zoom <= ONE,
            0 <= cfg.canvas_width,
            0 <= cfg.canvas_height,
    ;
    lemma_step_stays_between(z.current_width, cfg.canvas_width * z.target_multiplier, decay);
    lemma_step_stays_between(z.current_height, cfg.canvas_height * z.target_multiplier, decay);
}

/// The frame counter of a run counts its frames.
pub proof fn lemma_frame_index_counts(cfg: CameraConfig, frames: nat)
    ensures
        cfg.state_after(cfg.initial(), frames).frame_index == frames,
    decreases frames,
{
    if frames > 0 {
        lemma_frame_index_counts(cfg, (frames - 1) as nat);
    }
}

/// A later frame has no earlier time.
pub proof fn lemma_time_does_not_go_back(earlier: int, later: int, fps: int)
    requires
        0 <= earlier <= later,
        fps > 0,
    ensures
        time_at(earlier, fps) <= time_at(later, fps),
{
    assert((earlier * 1000) / fps <= (later * 1000) / fps) by (nonlinear_arith)
        requires
            0 <= earlier <= later,
            fps > 0,
    ;
}

/// On every frame of a run with a single interval the state is well
/// formed and the size of the crop lies between the interval's share and
/// the whole canvas.
pub proof fn lemma_single_zoom_run(cfg: CameraConfig, frames: nat)
    requires
        single_zoom(cfg),
    ensures
        cfg.state_after(cfg.initial(), frames).wf(cfg),
        in_range(
            cfg,
            cfg.state_after(cfg.initial(), frames),
            cfg.intervals@[0].zoom_factor as int,
        ),
    decreases frames,
{
    let zoom = cfg.intervals@[0].zoom_factor as int;
    lemma_target_bounds(cfg.canvas_width as int, ONE as int);
    lemma_target_bounds(cfg.canvas_height as int, ONE as int);
    assert(cfg.canvas_width * zoom <= cfg.canvas_width * ONE && cfg.canvas_height * zoom
        <= cfg.canvas_height * ONE) by (nonlinear_arith)
        requires
            0 < zoom <= ONE,
            0 <= cfg.canvas_width,
            0 <= cfg.canvas_height,
    ;
    if frames > 0 {
        lemma_single_zoom_run(cfg, (frames - 1) as nat);
        let before = cfg.state_after(cfg.initial(), (frames - 1) as nat);
        lemma_single_zoom_frame(cfg, before, time_at(before.frame_index, cfg.settings.fps as int));
    }
}

/// Before the interval begins the camera is idle and shows the whole
/// canvas: this holds after `frames` frames if the last of them, and so
/// each of them, lies before the interval.
pub proof fn lemma_whole_canvas_before_the_zoom(cfg: CameraConfig, frames: nat)
    requires
        single_zoom(cfg),
        frames > 0 ==> time_at(frames - 1, cfg.settings.fps as int) < cfg.intervals@[0].start_ms,
    ensures
        cfg.state_after(cfg.initial(), frames).phase() == Phase::Idle,
        cfg.state_after(cfg.initial(), frames).target_multiplier == ONE,
        cfg.crop_left(cfg.state_after(cfg.initial(), frames)) == 0,
        cfg.crop_top(cfg.state_after(cfg.initial(), frames)) == 0,
        cfg.crop_width(cfg.state_after(cfg.initial(), frames)) == cfg.canvas_width,
        cfg.crop_height(cfg.state_after(cfg.initial(), frames)) == cfg.canvas_height,
    decreases frames,
{
    lemma_single_zoom_run(cfg, frames);
    if frames > 0 {
        let fps = cfg.settings.fps as int;
        if frames > 1 {
            lemma_time_does_not_go_back(frames - 2, frames - 1, fps);
        }
        lemma_whole_canvas_before_the_zoom(cfg, (frames - 1) as nat);
        lemma_single_zoom_run(cfg, (frames - 1) as nat);
        lemma_frame_index_counts(cfg, (frames - 1) as nat);
        let before = cfg.state_after(cfg.initial(), (frames - 1) as nat);
        lemma_single_zoom_frame(cfg, before, time_at(before.frame_index, fps));
    }
    let s = cfg.state_after(cfg.initial(), frames);
    assert(s.current_width == cfg.canvas_width * ONE);
    assert(s.current_height == cfg.canvas_height * ONE);
}

/// The frame with the index `frame` of a run with a single interval.
///
/// If its time lies inside the interval, the camera zooms in toward the
/// interval's factor, and the crop is at most what it was on the frame
/// before and at least the crop of the interval's share.  If its time
/// lies in the window after the interval, the camera has the whole
/// canvas as its target, and the crop is at least what it was on the
/// frame before and at most the whole canvas.
pub proof fn lemma_zoom_shrinks_then_grows(cfg: CameraConfig, frame: nat)
    requires
        single_zoom(cfg),
        !cfg.settings.dimension_smoothing,
    ensures
        inside(cfg.intervals@[0], time_at(frame as int, cfg.settings.fps as int)) ==> {
            &&& cfg.state_after(cfg.initial(), frame + 1).phase() == Phase::ZoomingIn
            &&& cfg.state_after(cfg.initial(), frame + 1).target_multiplier
                == cfg.intervals@[0].zoom_factor
            &&& crop_at_most(
                cfg,
                cfg.state_after(cfg.initial(), frame + 1),
                cfg.state_after(cfg.initial(), frame),
            )
            &&& even_floor(
                crop_length(
                    cfg.canvas_width * cfg.intervals@[0].zoom_factor,
                    cfg.canvas_width as int,
                ),
            ) <= cfg.crop_width(cfg.state_after(cfg.initial(), frame + 1))
            &&& even_floor(
                crop_length(
                    cfg.canvas_height * cfg.intervals@[0].zoom_factor,
                    cfg.canvas_height as int,
                ),
            ) <= cfg.crop_height(cfg.state_after(cfg.initial(), frame + 1))
        },
        after(
            cfg.intervals@[0],
            time_at(frame as int, cfg.settings.fps as int),
            cfg.settings.animation_duration_ms as int,
        ) ==> {
            &&& !cfg.state_after(cfg.initial(), frame + 1).zooming_in
            &&& cfg.state_after(cfg.initial(), frame + 1).target_multiplier == ONE
            &&& crop_at_most(
                cfg,
                cfg.state_after(cfg.initial(), frame),
                cfg.state_after(cfg.initial(), frame + 1),
            )
            &&& cfg.crop_width(cfg.state_after(cfg.initial(), frame + 1)) <= cfg.canvas_width
            &&& cfg.crop_height(cfg.state_after(cfg.initial(), frame + 1)) <= cfg.canvas_height
        },
{
    let before = cfg.state_after(cfg.initial(), frame);
    let next = cfg.state_after(cfg.initial(), frame + 1);
    let fps = cfg.settings.fps as int;
    lemma_single_zoom_run(cfg, frame);
    lemma_single_zoom_run(cfg, frame + 1);
    lemma_frame_index_counts(cfg, frame);
    lemma_single_zoom_frame(cfg, before, time_at(before.frame_index, fps));
    assert(next.current_width == cfg.state_at(before, time_at(frame as int, fps)).current_width);
    assert(next.zooming_in == cfg.state_at(before, time_at(frame as int, fps)).zooming_in);
    lemma_target_bounds(cfg.canvas_width as int, ONE as int);
    lemma_target_bounds(cfg.canvas_height as int, ONE as int);
}

} // verus!
