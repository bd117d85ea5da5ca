//! The virtual camera: a state machine that is driven once per frame and
//! yields the crop rectangle of that frame.
//!
//! The camera is idle until the first zoom interval begins.  Inside an
//! interval it zooms in: the crop shrinks toward the interval's share of the
//! canvas and centres on the mouse.  For a fixed time after the interval it
//! zooms out again.  Lengths and positions are fixed-point pixels of the
//! canvas that the crop is taken from.
//!
//! Two extensions are off by default: a second smoothing of the crop's
//! size, and a focal point that the centre of the crop follows over some
//! frames in place of jumping to it.

use crate::animation::{approach, settle, settle_dimension, step_toward, STANDARD_DECAY};
use crate::config::{MouseEvent, SourceWindowInfo, ZoomInterval};
use crate::error::ConfigError;
use crate::fixed::{
    clamp, clamp_to, clamp_wide, even_floor, floor_div, floor_to_whole, make_even, pixels,
    round_to_whole, HALF, MAX_RATIO, ONE,
};
use crate::focus::{find_event_at_or_after, first_at_or_after, map_to_canvas, to_canvas};
use vstd::prelude::*;

verus! {

/// Frames per second of the output.
pub const STANDARD_FPS: u32 = 60;

/// The factor by which the canvas is enlarged before the crop is taken.
pub const STANDARD_UPSCALE: u32 = 4;

/// How long the camera keeps zooming out after an interval, in milliseconds.
pub const STANDARD_ANIMATION_MS: i32 = 5000;

/// The weight of the newest value in the optional second smoothing.
pub const STANDARD_SMOOTHING: i64 = 950_000;

/// The constants of a run.
#[derive(Clone, Copy, Debug, PartialEq, Eq)]
pub struct CameraSettings {
    pub fps: u32,
    pub upscale_factor: u32,
    pub animation_duration_ms: i32,
    pub decay: i64,
    pub dimension_smoothing: bool,
    pub smoothing_factor: i64,
    pub focus_smoothing: bool,
}

/// What the camera was set up with; it does not change during a run.
#[derive(Clone, Debug, PartialEq, Eq)]
pub struct CameraConfig {
    pub canvas_width: u32,
    pub canvas_height: u32,
    pub settings: CameraSettings,
    pub intervals: Vec<ZoomInterval>,
    pub mouse_events: Vec<MouseEvent>,
    pub window: SourceWindowInfo,
}

/// What the camera carries from one frame to the next.
///
/// `current_width` and `current_height` are the filtered size of the crop,
/// `current_mouse_x` and `current_mouse_y` its centre, and `mouse_x` and
/// `mouse_y` the focal point that was chosen last.
#[derive(Clone, Copy, Debug, PartialEq, Eq)]
pub struct CameraState {
    pub current_width: i64,
    pub current_height: i64,
    pub smooth_width: i64,
    pub smooth_height: i64,
    pub velocity_width: i64,
    pub velocity_height: i64,
    pub mouse_x: i64,
    pub mouse_y: i64,
    pub current_mouse_x: i64,
    pub current_mouse_y: i64,
    pub velocity_mouse_x: i64,
    pub velocity_mouse_y: i64,
    pub target_multiplier: i64,
    pub zooming_in: bool,
    pub zooming_out: bool,
    pub frame_index: u32,
}

/// The state of the camera as mathematical integers.
pub struct CameraModel {
    pub current_width: int,
    pub current_height: int,
    pub smooth_width: int,
    pub smooth_height: int,
    pub velocity_width: int,
    pub velocity_height: int,
    pub mouse_x: int,
    pub mouse_y: int,
    pub current_mouse_x: int,
    pub current_mouse_y: int,
    pub velocity_mouse_x: int,
    pub velocity_mouse_y: int,
    pub target_multiplier: int,
    pub zooming_in: bool,
    pub zooming_out: bool,
    pub frame_index: int,
}

/// What the camera is doing.
#[derive(Clone, Copy, Debug, PartialEq, Eq)]
pub enum Phase {
    Idle,
    ZoomingIn,
    ZoomingOut,
}

/// The part of the canvas that a frame shows, in whole pixels.
#[derive(Clone, Copy, Debug, PartialEq, Eq)]
pub struct CropRect {
    pub left: u32,
    pub top: u32,
    pub width: u32,
    pub height: u32,
}

impl View for CameraState {
    type V = CameraModel;

    open spec fn view(&self) -> CameraModel {
        CameraModel {
            current_width: self.current_width as int,
            current_height: self.current_height as int,
            smooth_width: self.smooth_width as int,
            smooth_height: self.smooth_height as int,
            velocity_width: self.velocity_width as int,
            velocity_height: self.velocity_height as int,
            mouse_x: self.mouse_x as int,
            mouse_y: self.mouse_y as int,
            current_mouse_x: self.current_mouse_x as int,
            current_mouse_y: self.current_mouse_y as int,
            velocity_mouse_x: self.velocity_mouse_x as int,
            velocity_mouse_y: self.velocity_mouse_y as int,
            target_multiplier: self.target_multiplier as int,
            zooming_in: self.zooming_in,
            zooming_out: self.zooming_out,
            frame_index: self.frame_index as int,
        }
    }
}

/// The time of a frame in milliseconds.
pub open spec fn time_at(frame_index: int, fps: int) -> int {
    frame_index * 1000 / fps
}

/// The second smoothing: a weighted mean of the filtered length and the
/// previous smoothed length, kept between one pixel and the canvas.
pub open spec fn smoothed(current: int, previous: int, factor: int, limit: int) -> int {
    clamp((factor * current + (ONE - factor) * previous) / (ONE as int), ONE as int, limit)
}

/// The length of the crop along one axis before it is made even: the
/// filtered length rounded to whole pixels, at least one pixel and at most
/// the canvas.
pub open spec fn crop_length(used: int, canvas: int) -> int {
    clamp(round_to_whole(used), 1, canvas)
}

/// Where the crop begins along one axis: centred on `focus`, kept inside
/// the canvas, and rounded down to an even pixel.
pub open spec fn crop_origin(focus: int, length: int, canvas: int) -> int {
    even_floor(floor_to_whole(clamp(focus - length * HALF, 0, (canvas - length) * ONE)))
}

impl CameraModel {
    /// Every velocity set to zero.
    pub open spec fn at_rest(self) -> CameraModel {
        CameraModel {
            velocity_width: 0,
            velocity_height: 0,
            velocity_mouse_x: 0,
            velocity_mouse_y: 0,
            ..self
        }
    }

    /// The state with the focal point `focus` chosen.  The centre of the
    /// crop jumps there at once, unless it is to `follow` over the next
    /// frames.
    pub open spec fn aim_at(self, focus: (int, int), follow: bool) -> CameraModel {
        if follow {
            CameraModel { mouse_x: focus.0, mouse_y: focus.1, ..self }
        } else {
            CameraModel {
                mouse_x: focus.0,
                mouse_y: focus.1,
                current_mouse_x: focus.0,
                current_mouse_y: focus.1,
                ..self
            }
        }
    }

    /// The state on the frame that begins a zoom.
    pub open spec fn enter_zoom(
        self,
        zoom_factor: int,
        focus: Option<(int, int)>,
        follow: bool,
    ) -> CameraModel {
        let rested = self.at_rest();
        let aimed = match focus {
            Some(point) => rested.aim_at(point, follow),
            None => rested,
        };
        CameraModel { zooming_in: true, zooming_out: false, target_multiplier: zoom_factor, ..aimed }
    }

    /// The state on the frame that ends a zoom.
    pub open spec fn leave_zoom(self) -> CameraModel {
        CameraModel {
            zooming_in: false,
            zooming_out: true,
            target_multiplier: ONE as int,
            ..self.at_rest()
        }
    }

    /// The camera moves during this frame.
    pub open spec fn active(self) -> bool {
        self.zooming_in || self.zooming_out
    }

    /// What the camera is doing.
    pub open spec fn phase(self) -> Phase {
        if self.zooming_in {
            Phase::ZoomingIn
        } else if self.zooming_out {
            Phase::ZoomingOut
        } else {
            Phase::Idle
        }
    }

    /// The state can occur in a run with the configuration `cfg`.
    pub open spec fn wf(self, cfg: CameraConfig) -> bool {
        &&& 2 * ONE <= self.current_width <= cfg.canvas_width * MAX_RATIO
        &&& 2 * ONE <= self.current_height <= cfg.canvas_height * MAX_RATIO
        &&& 2 * ONE <= self.smooth_width <= cfg.width_limit()
        &&& 2 * ONE <= self.smooth_height <= cfg.height_limit()
        &&& cfg.zoom_fits(self.target_multiplier)
        &&& !(self.zooming_in && self.zooming_out)
        &&& 0 <= self.frame_index
    }
}

impl CameraSettings {
    /// The settings of the standard pipeline: sixty frames per second, a
    /// canvas enlarged four times, five seconds of zooming out, friction
    /// four, no second smoothing, and a focal point that is not smoothed.
    pub fn standard() -> (s: CameraSettings)
        ensures
            s.fps == STANDARD_FPS,
            s.upscale_factor == STANDARD_UPSCALE,
            s.animation_duration_ms == STANDARD_ANIMATION_MS,
            s.decay == STANDARD_DECAY,
            !s.dimension_smoothing,
            s.smoothing_factor == STANDARD_SMOOTHING,
            !s.focus_smoothing,
            s.wf(),
    {
        CameraSettings {
            fps: STANDARD_FPS,
            upscale_factor: STANDARD_UPSCALE,
            animation_duration_ms: STANDARD_ANIMATION_MS,
            decay: STANDARD_DECAY,
            dimension_smoothing: false,
            smoothing_factor: STANDARD_SMOOTHING,
            focus_smoothing: false,
        }
    }

    /// The settings are usable.
    pub open spec fn wf(self) -> bool {
        &&& self.fps > 0
        &&& self.animation_duration_ms >= 0
        &&& 0 <= self.decay <= ONE
        &&& 0 <= self.smoothing_factor <= ONE
    }
}

impl CameraConfig {
    /// The width of the canvas as a fixed-point length.
    pub open spec fn width_limit(&self) -> int {
        self.canvas_width * ONE
    }

    /// The height of the canvas as a fixed-point length.
    pub open spec fn height_limit(&self) -> int {
        self.canvas_height * ONE
    }

    /// A crop of this share of the canvas is at least two pixels wide and
    /// high, and the share is a positive ratio within the supported range.
    pub open spec fn zoom_fits(&self, factor: int) -> bool {
        &&& 0 < factor <= MAX_RATIO
        &&& self.canvas_width * factor >= 2 * ONE
        &&& self.canvas_height * factor >= 2 * ONE
    }

    /// The configuration is usable: an even canvas of at least two by two
    /// pixels, usable settings, and zoom factors that fit the canvas.
    pub open spec fn wf(&self) -> bool {
        &&& self.canvas_width >= 2
        &&& self.canvas_width % 2 == 0
        &&& self.canvas_height >= 2
        &&& self.canvas_height % 2 == 0
        &&& self.settings.wf()
        &&& forall|i: int|
            0 <= i < self.intervals@.len() ==> self.zoom_fits(
                (#[trigger] self.intervals@[i]).zoom_factor as int,
            )
    }

    /// The first interval from `from` on whose crop does not fit the canvas.
    pub open spec fn first_unfit(&self, from: int) -> Option<int>
        decreases self.intervals@.len() - from,
    {
        if from < 0 || from >= self.intervals@.len() {
            None
        } else if !self.zoom_fits(self.intervals@[from].zoom_factor as int) {
            Some(from)
        } else {
            self.first_unfit(from + 1)
        }
    }

    /// What [`CameraConfig::check`] answers for this configuration.
    ///
    /// The checks run in a fixed order, so that each unusable configuration
    /// has exactly one error.
    pub open spec fn verdict(&self) -> Result<(), ConfigError> {
        if self.settings.fps == 0 {
            Err(ConfigError::ZeroFrameRate)
        } else if self.settings.animation_duration_ms < 0 {
            Err(ConfigError::NegativeAnimationDuration)
        } else if !(0 <= self.settings.decay <= ONE) {
            Err(ConfigError::DecayOutOfRange)
        } else if !(0 <= self.settings.smoothing_factor <= ONE) {
            Err(ConfigError::SmoothingOutOfRange)
        } else if self.canvas_width < 2 || self.canvas_height < 2 {
            Err(ConfigError::CanvasTooSmall)
        } else if self.canvas_width % 2 != 0 || self.canvas_height % 2 != 0 {
            Err(ConfigError::OddCanvas)
        } else {
            match self.first_unfit(0) {
                Some(i) => if self.intervals@[i].factor_in_range() {
                    Err(ConfigError::CropTooSmall { index: i as usize })
                } else {
                    Err(ConfigError::ZoomFactorOutOfRange { index: i as usize })
                },
                None => Ok(()),
            }
        }
    }

    /// The state before the first frame: the whole canvas, the mouse in its
    /// centre, nothing moving.
    pub open spec fn initial(&self) -> CameraModel {
        CameraModel {
            current_width: self.width_limit(),
            current_height: self.height_limit(),
            smooth_width: self.width_limit(),
            smooth_height: self.height_limit(),
            velocity_width: 0,
            velocity_height: 0,
            mouse_x: self.canvas_width * HALF,
            mouse_y: self.canvas_height * HALF,
            current_mouse_x: self.canvas_width * HALF,
            current_mouse_y: self.canvas_height * HALF,
            velocity_mouse_x: 0,
            velocity_mouse_y: 0,
            target_multiplier: ONE as int,
            zooming_in: false,
            zooming_out: false,
            frame_index: 0,
        }
    }

    /// The focal point of a zoom that begins at `start_ms`: the first mouse
    /// event at or after that time, on the canvas; none if the log has no
    /// such event.
    pub open spec fn focal_point(&self, start_ms: int) -> Option<(int, int)> {
        match first_at_or_after(self.mouse_events@, start_ms, 0) {
            Some(i) => Some(
                (
                    clamp(
                        to_canvas(
                            self.mouse_events@[i].x as int,
                            self.window.scale_factor as int,
                            self.settings.upscale_factor as int,
                            self.window.x as int,
                            self.canvas_width as int,
                        ),
                        0,
                        self.width_limit(),
                    ),
                    clamp(
                        to_canvas(
                            self.mouse_events@[i].y as int,
                            self.window.scale_factor as int,
                            self.settings.upscale_factor as int,
                            self.window.y as int,
                            self.canvas_height as int,
                        ),
                        0,
                        self.height_limit(),
                    ),
                ),
            ),
            None => None,
        }
    }

    /// The transition rule for one interval.
    ///
    /// Inside the interval the camera zooms in toward the interval's
    /// factor: a camera that is not zooming in begins to, and one that is
    /// takes the factor as its target.  In the animation window after the
    /// interval the camera zooms out toward the whole canvas: a camera
    /// that is zooming in begins to zoom out, and one that is zooming out
    /// keeps the whole canvas as its target.  At any other time, and for
    /// an idle camera after the interval, the interval changes nothing.
    pub open spec fn apply_interval(&self, s: CameraModel, interval: ZoomInterval, time_ms: int) -> CameraModel {
        if interval.start_ms <= time_ms < interval.end_ms {
            if !s.zooming_in {
                s.enter_zoom(
                    interval.zoom_factor as int,
                    self.focal_point(interval.start_ms as int),
                    self.settings.focus_smoothing,
                )
            } else {
                CameraModel { target_multiplier: interval.zoom_factor as int, ..s }
            }
        } else if interval.end_ms <= time_ms < interval.end_ms
            + self.settings.animation_duration_ms {
            if s.zooming_in {
                s.leave_zoom()
            } else if s.zooming_out {
                CameraModel { target_multiplier: ONE as int, ..s }
            } else {
                s
            }
        } else {
            s
        }
    }

    /// The transition rule applied to each interval in turn, in the order
    /// of the list: where several intervals match a frame, the last one
    /// in the list decides the state and the target.
    pub open spec fn apply_intervals(
        &self,
        s: CameraModel,
        intervals: Seq<ZoomInterval>,
        time_ms: int,
    ) -> CameraModel
        decreases intervals.len(),
    {
        if intervals.len() == 0 {
            s
        } else {
            self.apply_interval(
                self.apply_intervals(s, intervals.drop_last(), time_ms),
                intervals.last(),
                time_ms,
            )
        }
    }

    /// The state after the frame at `time_ms`, the frame counter aside.
    pub open spec fn state_at(&self, s: CameraModel, time_ms: int) -> CameraModel {
        let z = self.apply_intervals(s, self.intervals@, time_ms);
        let width = settle(
            z.current_width,
            self.canvas_width * z.target_multiplier,
            self.settings.decay as int,
            z.active(),
            z.zooming_in,
        );
        let height = settle(
            z.current_height,
            self.canvas_height * z.target_multiplier,
            self.settings.decay as int,
            z.active(),
            z.zooming_in,
        );
        let smoothing = self.settings.dimension_smoothing && z.active();
        let follow = self.settings.focus_smoothing && z.active();
        CameraModel {
            current_width: width,
            current_height: height,
            smooth_width: if smoothing {
                smoothed(
                    width,
                    z.smooth_width,
                    self.settings.smoothing_factor as int,
                    self.width_limit(),
                )
            } else {
                z.smooth_width
            },
            smooth_height: if smoothing {
                smoothed(
                    height,
                    z.smooth_height,
                    self.settings.smoothing_factor as int,
                    self.height_limit(),
                )
            } else {
                z.smooth_height
            },
            velocity_width: clamp(z.velocity_width, -self.width_limit(), self.width_limit()),
            velocity_height: clamp(z.velocity_height, -self.height_limit(), self.height_limit()),
            current_mouse_x: clamp(
                if follow {
                    approach(z.current_mouse_x, z.mouse_x, self.settings.decay as int)
                } else {
                    z.current_mouse_x
                },
                0,
                self.width_limit(),
            ),
            current_mouse_y: clamp(
                if follow {
                    approach(z.current_mouse_y, z.mouse_y, self.settings.decay as int)
                } else {
                    z.current_mouse_y
                },
                0,
                self.height_limit(),
            ),
            velocity_mouse_x: clamp(z.velocity_mouse_x, -self.width_limit(), self.width_limit()),
            velocity_mouse_y: clamp(z.velocity_mouse_y, -self.height_limit(), self.height_limit()),
            ..z
        }
    }

    /// The state after one more frame: the transition at the time of the
    /// frame, and the frame counter advanced.
    pub open spec fn advance(&self, s: CameraModel) -> CameraModel {
        CameraModel {
            frame_index: s.frame_index + 1,
            ..self.state_at(s, time_at(s.frame_index, self.settings.fps as int))
        }
    }

    /// The state after `frames` frames.
    pub open spec fn state_after(&self, s: CameraModel, frames: nat) -> CameraModel
        decreases frames,
    {
        if frames == 0 {
            s
        } else {
            self.advance(self.state_after(s, (frames - 1) as nat))
        }
    }

    /// The width that the crop is derived from: the smoothed width where
    /// the second smoothing is on and the camera moves, else the filtered
    /// width.
    pub open spec fn used_width(&self, s: CameraModel) -> int {
        if self.settings.dimension_smoothing && s.active() {
            s.smooth_width
        } else {
            s.current_width
        }
    }

    /// The height that the crop is derived from.
    pub open spec fn used_height(&self, s: CameraModel) -> int {
        if self.settings.dimension_smoothing && s.active() {
            s.smooth_height
        } else {
            s.current_height
        }
    }

    /// The width of the crop in the state `s`.
    pub open spec fn crop_width(&self, s: CameraModel) -> int {
        even_floor(crop_length(self.used_width(s), self.canvas_width as int))
    }

    /// The height of the crop in the state `s`.
    pub open spec fn crop_height(&self, s: CameraModel) -> int {
        even_floor(crop_length(self.used_height(s), self.canvas_height as int))
    }

    /// The left edge of the crop in the state `s`.
    pub open spec fn crop_left(&self, s: CameraModel) -> int {
        crop_origin(
            s.current_mouse_x,
            crop_length(self.used_width(s), self.canvas_width as int),
            self.canvas_width as int,
        )
    }

    /// The top edge of the crop in the state `s`.
    pub open spec fn crop_top(&self, s: CameraModel) -> int {
        crop_origin(
            s.current_mouse_y,
            crop_length(self.used_height(s), self.canvas_height as int),
            self.canvas_height as int,
        )
    }

    /// `rect` is the crop of the state `s`.
    pub open spec fn is_crop_of(&self, rect: CropRect, s: CameraModel) -> bool {
        &&& rect.left == self.crop_left(s)
        &&& rect.top == self.crop_top(s)
        &&& rect.width == self.crop_width(s)
        &&& rect.height == self.crop_height(s)
    }
}

impl CropRect {
    /// The crop has even sides of at least two pixels and lies inside a
    /// canvas of the given size.
    pub open spec fn fits(self, canvas_width: int, canvas_height: int) -> bool {
        &&& self.width % 2 == 0
        &&& self.height % 2 == 0
        &&& 2 <= self.width <= canvas_width
        &&& 2 <= self.height <= canvas_height
        &&& self.left % 2 == 0
        &&& self.top % 2 == 0
        &&& self.left + self.width <= canvas_width
        &&& self.top + self.height <= canvas_height
    }

    /// The crop is the whole of a canvas of the given size.
    pub open spec fn is_whole(self, canvas_width: int, canvas_height: int) -> bool {
        &&& self.left == 0
        &&& self.top == 0
        &&& self.width == canvas_width
        &&& self.height == canvas_height
    }
}

/// The time of a frame in whole milliseconds: `frame_index * 1000 / fps`.
pub fn time_elapsed_ms(frame_index: u32, fps: u32) -> (t: i64)
    requires
        fps > 0,
    ensures
        t == time_at(frame_index as int, fps as int),
        0 <= t,
{
    ((frame_index as i64) * 1000) / (fps as i64)
}

/// The length of the crop along one axis, before it is made even.
pub fn crop_length_px(used: i64, canvas: u32) -> (length: u32)
    ensures
        length == crop_length(used as int, canvas as int),
{
    let rounded: i128 = floor_div(used as i128 + HALF as i128, ONE as i128);
    if rounded < 1 {
        1
    } else if rounded > canvas as i128 {
        canvas
    } else {
        rounded as u32
    }
}

/// Where the crop begins along one axis.
pub fn crop_origin_px(focus: i64, length: u32, canvas: u32) -> (origin: u32)
    requires
        length <= canvas,
    ensures
        origin == crop_origin(focus as int, length as int, canvas as int),
        origin % 2 == 0,
        origin + length <= canvas,
{
    let centred: i128 = focus as i128 - (length as i128) * (HALF as i128);
    let room: i64 = ((canvas - length) as i64) * ONE;
    let inside: i64 = clamp_wide(centred, 0, room);
    let whole: i64 = inside / ONE;
    let origin: i64 = whole - whole % 2;
    origin as u32
}

impl CameraState {
    /// What the camera is doing.
    pub fn phase(&self) -> (p: Phase)
        ensures
            p == self@.phase(),
    {
        if self.zooming_in {
            Phase::ZoomingIn
        } else if self.zooming_out {
            Phase::ZoomingOut
        } else {
            Phase::Idle
        }
    }
}

impl CameraConfig {
    /// Decides whether a crop of the share `factor` fits the canvas.
    pub fn is_fitting(&self, factor: i64) -> (ok: bool)
        ensures
            ok == self.zoom_fits(factor as int),
    {
        if !(0 < factor && factor <= MAX_RATIO) {
            return false;
        }
        proof {
            lemma_target_bounds(self.canvas_width as int, factor as int);
            lemma_target_bounds(self.canvas_height as int, factor as int);
        }
        (self.canvas_width as i64) * factor >= 2 * ONE && (self.canvas_height as i64) * factor >= 2
            * ONE
    }

    /// Checks the configuration of a camera.
    ///
    /// It is accepted if and only if it is well formed; otherwise the
    /// error names the first check that it fails.
    pub fn check(&self) -> (res: Result<(), ConfigError>)
        ensures
            res == self.verdict(),
            res is Ok <==> self.wf(),
    {
        if self.settings.fps == 0 {
            return Err(ConfigError::ZeroFrameRate);
        }
        if self.settings.animation_duration_ms < 0 {
            return Err(ConfigError::NegativeAnimationDuration);
        }
        if !(0 <= self.settings.decay && self.settings.decay <= ONE) {
            return Err(ConfigError::DecayOutOfRange);
        }
        if !(0 <= self.settings.smoothing_factor && self.settings.smoothing_factor <= ONE) {
            return Err(ConfigError::SmoothingOutOfRange);
        }
        if self.canvas_width < 2 || self.canvas_height < 2 {
            return Err(ConfigError::CanvasTooSmall);
        }
        if self.canvas_width % 2 != 0 || self.canvas_height % 2 != 0 {
            return Err(ConfigError::OddCanvas);
        }
        let mut i: usize = 0;
        while i < self.intervals.len()
            invariant
                i <= self.intervals@.len(),
                self.settings.wf(),
                self.canvas_width >= 2,
                self.canvas_height >= 2,
                self.canvas_width % 2 == 0,
                self.canvas_height % 2 == 0,
                self.first_unfit(0) == self.first_unfit(i as int),
                forall|k: int|
                    0 <= k < i ==> self.zoom_fits((#[trigger] self.intervals@[k]).zoom_factor as int),
            decreases self.intervals@.len() - i,
        {
            let factor: i64 = self.intervals[i].zoom_factor;
            if !self.is_fitting(factor) {
                if 0 < factor && factor <= MAX_RATIO {
                    return Err(ConfigError::CropTooSmall { index: i });
                } else {
                    return Err(ConfigError::ZoomFactorOutOfRange { index: i });
                }
            }
            i += 1;
        }
        Ok(())
    }

    /// The state before the first frame.
    pub fn initial_state(&self) -> (state: CameraState)
        requires
            self.wf(),
        ensures
            state@ == self.initial(),
            state@.wf(*self),
    {
        proof {
            lemma_target_bounds(self.canvas_width as int, ONE as int);
            lemma_target_bounds(self.canvas_height as int, ONE as int);
        }
        CameraState {
            current_width: pixels(self.canvas_width),
            current_height: pixels(self.canvas_height),
            smooth_width: pixels(self.canvas_width),
            smooth_height: pixels(self.canvas_height),
            velocity_width: 0,
            velocity_height: 0,
            mouse_x: (self.canvas_width as i64) * HALF,
            mouse_y: (self.canvas_height as i64) * HALF,
            current_mouse_x: (self.canvas_width as i64) * HALF,
            current_mouse_y: (self.canvas_height as i64) * HALF,
            velocity_mouse_x: 0,
            velocity_mouse_y: 0,
            target_multiplier: ONE,
            zooming_in: false,
            zooming_out: false,
            frame_index: 0,
        }
    }

    /// Finds the focal point of a zoom that begins at `start_ms`.
    pub fn find_focal_point(&self, start_ms: i32) -> (focus: Option<(i64, i64)>)
        ensures
            match focus {
                Some((x, y)) => self.focal_point(start_ms as int) == Some((x as int, y as int)),
                None => self.focal_point(start_ms as int) is None,
            },
    {
        match find_event_at_or_after(&self.mouse_events, start_ms) {
            Some(i) => {
                let event: MouseEvent = self.mouse_events[i];
                let x: i64 = map_to_canvas(
                    event.x,
                    self.window.scale_factor,
                    self.settings.upscale_factor,
                    self.window.x,
                    self.canvas_width,
                );
                let y: i64 = map_to_canvas(
                    event.y,
                    self.window.scale_factor,
                    self.settings.upscale_factor,
                    self.window.y,
                    self.canvas_height,
                );
                Some((x, y))
            },
            None => None,
        }
    }

    /// Applies the transition rule of one interval.
    pub fn visit_interval(&self, state: CameraState, interval: &ZoomInterval, time_ms: i64) -> (next:
        CameraState)
        ensures
            next@ == self.apply_interval(state@, *interval, time_ms as int),
    {
        let start: i64 = interval.start_ms as i64;
        let end: i64 = interval.end_ms as i64;
        let window_end: i64 = end + self.settings.animation_duration_ms as i64;
        if start <= time_ms && time_ms < end {
            let mut next: CameraState = state;
            if !state.zooming_in {
                next.velocity_width = 0;
                next.velocity_height = 0;
                next.velocity_mouse_x = 0;
                next.velocity_mouse_y = 0;
                match self.find_focal_point(interval.start_ms) {
                    Some((x, y)) => {
                        next.mouse_x = x;
                        next.mouse_y = y;
                        if !self.settings.focus_smoothing {
                            next.current_mouse_x = x;
                            next.current_mouse_y = y;
                        }
                    },
                    None => {},
                }
                next.zooming_in = true;
                next.zooming_out = false;
            }
            next.target_multiplier = interval.zoom_factor;
            next
        } else if end <= time_ms && time_ms < window_end {
            let mut next: CameraState = state;
            if state.zooming_in {
                next.velocity_width = 0;
                next.velocity_height = 0;
                next.velocity_mouse_x = 0;
                next.velocity_mouse_y = 0;
                next.zooming_in = false;
                next.zooming_out = true;
                next.target_multiplier = ONE;
            } else if state.zooming_out {
                next.target_multiplier = ONE;
            }
            next
        } else {
            state
        }
    }

    /// Applies the transition rule of every interval, in the order of the
    /// list.
    pub fn visit_intervals(&self, state: CameraState, time_ms: i64) -> (next: CameraState)
        ensures
            next@ == self.apply_intervals(state@, self.intervals@, time_ms as int),
    {
        let mut next: CameraState = state;
        let mut k: usize = 0;
        while k < self.intervals.len()
            invariant
                k <= self.intervals@.len(),
                next@ == self.apply_intervals(
                    state@,
                    self.intervals@.take(k as int),
                    time_ms as int,
                ),
            decreases self.intervals@.len() - k,
        {
            proof {
                let longer = self.intervals@.take(k + 1);
                assert(longer.drop_last() =~= self.intervals@.take(k as int));
                assert(longer.last() == self.intervals@[k as int]);
            }
            next = self.visit_interval(next, &self.intervals[k], time_ms);
            k += 1;
        }
        proof {
            assert(self.intervals@.take(k as int) =~= self.intervals@);
        }
        next
    }

    /// The second smoothing of one crop length.
    fn smooth_dimension(&self, current: i64, previous: i64, canvas: u32) -> (next: i64)
        requires
            self.settings.wf(),
            0 <= current <= canvas * MAX_RATIO,
            0 <= previous <= canvas * ONE,
        ensures
            next == smoothed(
                current as int,
                previous as int,
                self.settings.smoothing_factor as int,
                canvas * ONE,
            ),
    {
        let factor: i128 = self.settings.smoothing_factor as i128;
        let rest: i128 = ONE as i128 - factor;
        proof {
            lemma_target_bounds(canvas as int, MAX_RATIO as int);
        }
        assert(0 <= factor * current <= 1_000_000 * 0xffff_ffff * 1_000_000_000) by (nonlinear_arith)
            requires
                0 <= factor <= 1_000_000,
                0 <= current <= 0xffff_ffff * 1_000_000_000,
        ;
        assert(0 <= rest * previous <= 1_000_000 * 0xffff_ffff * 1_000_000) by (nonlinear_arith)
            requires
                0 <= rest <= 1_000_000,
                0 <= previous <= 0xffff_ffff * 1_000_000,
        ;
        let mean: i128 = (factor * (current as i128) + rest * (previous as i128)) / (ONE as i128);
        clamp_wide(mean, ONE, pixels(canvas))
    }

    /// Drives the camera through the frame at `time_ms`: a pure function of
    /// the configuration, the state and the time.  The frame counter is
    /// left as it is.
    pub fn transition(&self, state: CameraState, time_ms: i64) -> (next: CameraState)
        requires
            self.wf(),
            state@.wf(*self),
        ensures
            next@ == self.state_at(state@, time_ms as int),
            next@.wf(*self),
            next.frame_index == state.frame_index,
    {
        let z: CameraState = self.visit_intervals(state, time_ms);
        proof {
            lemma_intervals_keep_wf(*self, state@, self.intervals@, time_ms as int);
            lemma_state_at_keeps_wf(*self, state@, time_ms as int);
            lemma_target_bounds(self.canvas_width as int, z.target_multiplier as int);
            lemma_target_bounds(self.canvas_height as int, z.target_multiplier as int);
        }
        let active: bool = z.zooming_in || z.zooming_out;
        let target_width: i64 = (self.canvas_width as i64) * z.target_multiplier;
        let target_height: i64 = (self.canvas_height as i64) * z.target_multiplier;
        let width: i64 = settle_dimension(
            z.current_width,
            target_width,
            self.settings.decay,
            active,
            z.zooming_in,
        );
        let height: i64 = settle_dimension(
            z.current_height,
            target_height,
            self.settings.decay,
            active,
            z.zooming_in,
        );
        let width_limit: i64 = pixels(self.canvas_width);
        let height_limit: i64 = pixels(self.canvas_height);
        let mut next: CameraState = z;
        next.current_width = width;
        next.current_height = height;
        if self.settings.dimension_smoothing && active {
            next.smooth_width = self.smooth_dimension(width, z.smooth_width, self.canvas_width);
            next.smooth_height = self.smooth_dimension(height, z.smooth_height, self.canvas_height);
        }
        next.velocity_width = clamp_to(z.velocity_width, -width_limit, width_limit);
        next.velocity_height = clamp_to(z.velocity_height, -height_limit, height_limit);
        if self.settings.focus_smoothing && active {
            next.current_mouse_x = step_toward(z.current_mouse_x, z.mouse_x, self.settings.decay);
            next.current_mouse_y = step_toward(z.current_mouse_y, z.mouse_y, self.settings.decay);
        }
        next.current_mouse_x = clamp_to(next.current_mouse_x, 0, width_limit);
        next.current_mouse_y = clamp_to(next.current_mouse_y, 0, height_limit);
        next.velocity_mouse_x = clamp_to(z.velocity_mouse_x, -width_limit, width_limit);
        next.velocity_mouse_y = clamp_to(z.velocity_mouse_y, -height_limit, height_limit);
        next
    }

    /// Drives a state through its next frame: the transition at the time
    /// that follows from the frame counter, the counter advanced, and the
    /// crop of the new state.
    pub fn frame(&self, state: CameraState) -> (out: (CameraState, CropRect))
        requires
            self.wf(),
            state@.wf(*self),
            state.frame_index < u32::MAX,
        ensures
            out.0@ == self.advance(state@),
            out.0@.wf(*self),
            self.is_crop_of(out.1, out.0@),
            out.1.fits(self.canvas_width as int, self.canvas_height as int),
    {
        let time_ms: i64 = time_elapsed_ms(state.frame_index, self.settings.fps);
        let mut next: CameraState = self.transition(state, time_ms);
        next.frame_index = next.frame_index + 1;
        let rect: CropRect = self.crop(&next);
        (next, rect)
    }

    /// Derives the crop rectangle of a state.
    pub fn crop(&self, state: &CameraState) -> (rect: CropRect)
        requires
            self.wf(),
            state@.wf(*self),
        ensures
            self.is_crop_of(rect, state@),
            rect.fits(self.canvas_width as int, self.canvas_height as int),
    {
        proof {
            lemma_target_bounds(self.canvas_width as int, MAX_RATIO as int);
            lemma_target_bounds(self.canvas_height as int, MAX_RATIO as int);
            lemma_crop_fits(*self, state@);
        }
        let smoothing: bool = self.settings.dimension_smoothing && (state.zooming_in
            || state.zooming_out);
        let used_width: i64 = if smoothing {
            state.smooth_width
        } else {
            state.current_width
        };
        let used_height: i64 = if smoothing {
            state.smooth_height
        } else {
            state.current_height
        };
        let width: u32 = crop_length_px(used_width, self.canvas_width);
        let height: u32 = crop_length_px(used_height, self.canvas_height);
        let left: u32 = crop_origin_px(state.current_mouse_x, width, self.canvas_width);
        let top: u32 = crop_origin_px(state.current_mouse_y, height, self.canvas_height);
        CropRect { left, top, width: make_even(width), height: make_even(height) }
    }
}

/// A canvas side times a ratio within the supported range fits in an `i64`.
pub proof fn lemma_target_bounds(side: int, ratio: int)
    requires
        0 <= side <= u32::MAX,
        0 <= ratio <= MAX_RATIO,
    ensures
        0 <= side * ratio <= side * MAX_RATIO <= 0xffff_ffff * 1_000_000_000,
        side * ONE <= side * MAX_RATIO,
{
    assert(0 <= side * ratio <= side * 1_000_000_000 <= 0xffff_ffff * 1_000_000_000 && side
        * 1_000_000 <= side * 1_000_000_000) by (nonlinear_arith)
        requires
            0 <= side <= 0xffff_ffff,
            0 <= ratio <= 1_000_000_000,
    ;
}

/// The transition rule of one interval keeps a state well formed.
proof fn lemma_interval_keeps_wf(cfg: CameraConfig, s: CameraModel, interval: ZoomInterval, time_ms: int)
    requires
        cfg.wf(),
        s.wf(cfg),
        cfg.zoom_fits(interval.zoom_factor as int),
    ensures
        cfg.apply_interval(s, interval, time_ms).wf(cfg),
        cfg.apply_interval(s, interval, time_ms).frame_index == s.frame_index,
        cfg.apply_interval(s, interval, time_ms).current_width == s.current_width,
        cfg.apply_interval(s, interval, time_ms).current_height == s.current_height,
        cfg.apply_interval(s, interval, time_ms).smooth_width == s.smooth_width,
        cfg.apply_interval(s, interval, time_ms).smooth_height == s.smooth_height,
{
    lemma_target_bounds(cfg.canvas_width as int, ONE as int);
    lemma_target_bounds(cfg.canvas_height as int, ONE as int);
}

/// The transition rules of a list of fitting intervals keep a state well
/// formed, and leave the crop lengths and the frame counter alone.
proof fn lemma_intervals_keep_wf(
    cfg: CameraConfig,
    s: CameraModel,
    intervals: Seq<ZoomInterval>,
    time_ms: int,
)
    requires
        cfg.wf(),
        s.wf(cfg),
        forall|i: int|
            0 <= i < intervals.len() ==> cfg.zoom_fits((#[trigger] intervals[i]).zoom_factor as int),
    ensures
        cfg.apply_intervals(s, intervals, time_ms).wf(cfg),
        cfg.apply_intervals(s, intervals, time_ms).frame_index == s.frame_index,
        cfg.apply_intervals(s, intervals, time_ms).current_width == s.current_width,
        cfg.apply_intervals(s, intervals, time_ms).current_height == s.current_height,
        cfg.apply_intervals(s, intervals, time_ms).smooth_width == s.smooth_width,
        cfg.apply_intervals(s, intervals, time_ms).smooth_height == s.smooth_height,
    decreases intervals.len(),
{
    if intervals.len() > 0 {
        let shorter = intervals.drop_last();
        assert forall|i: int| 0 <= i < shorter.len() implies cfg.zoom_fits(
            (#[trigger] shorter[i]).zoom_factor as int,
        ) by {
            assert(shorter[i] == intervals[i]);
        }
        lemma_intervals_keep_wf(cfg, s, shorter, time_ms);
        lemma_interval_keeps_wf(
            cfg,
            cfg.apply_intervals(s, shorter, time_ms),
            intervals.last(),
            time_ms,
        );
    }
}

/// A weighted mean of two lengths of at least two pixels is at least two
/// pixels.
proof fn lemma_smoothed_bounds(current: int, previous: int, factor: int, limit: int)
    requires
        0 <= factor <= ONE,
        2 * ONE <= current,
        2 * ONE <= previous,
        2 * ONE <= limit,
    ensures
        2 * ONE <= smoothed(current, previous, factor, limit) <= limit,
{
    let one = ONE as int;
    assert(factor * current + (one - factor) * previous >= 2 * one * one) by (nonlinear_arith)
        requires
            0 <= factor <= one,
            2 * one <= current,
            2 * one <= previous,
    ;
    assert((factor * current + (one - factor) * previous) / one >= 2 * one) by (nonlinear_arith)
        requires
            factor * current + (one - factor) * previous >= 2 * one * one,
            one > 0,
    ;
}

/// A frame keeps a state well formed.
pub proof fn lemma_state_at_keeps_wf(cfg: CameraConfig, s: CameraModel, time_ms: int)
    requires
        cfg.wf(),
        s.wf(cfg),
    ensures
        cfg.state_at(s, time_ms).wf(cfg),
        cfg.state_at(s, time_ms).frame_index == s.frame_index,
{
    lemma_intervals_keep_wf(cfg, s, cfg.intervals@, time_ms);
    let z = cfg.apply_intervals(s, cfg.intervals@, time_ms);
    let decay = cfg.settings.decay as int;
    lemma_target_bounds(cfg.canvas_width as int, z.target_multiplier);
    lemma_target_bounds(cfg.canvas_height as int, z.target_multiplier);
    crate::animation::lemma_step_stays_between(
        z.current_width,
        cfg.canvas_width * z.target_multiplier,
        decay,
    );
    crate::animation::lemma_step_stays_between(
        z.current_height,
        cfg.canvas_height * z.target_multiplier,
        decay,
    );
    let next = cfg.state_at(s, time_ms);
    lemma_target_bounds(cfg.canvas_width as int, ONE as int);
    lemma_target_bounds(cfg.canvas_height as int, ONE as int);
    if cfg.settings.dimension_smoothing && z.active() {
        lemma_smoothed_bounds(
            next.current_width,
            z.smooth_width,
            cfg.settings.smoothing_factor as int,
            cfg.width_limit(),
        );
        lemma_smoothed_bounds(
            next.current_height,
            z.smooth_height,
            cfg.settings.smoothing_factor as int,
            cfg.height_limit(),
        );
    }
}

/// The crop of a well-formed state has even sides of at least two pixels
/// and lies inside the canvas.
pub proof fn lemma_crop_fits(cfg: CameraConfig, s: CameraModel)
    requires
        cfg.wf(),
        s.wf(cfg),
    ensures
        0 <= cfg.crop_left(s),
        0 <= cfg.crop_top(s),
        cfg.crop_width(s) % 2 == 0,
        cfg.crop_height(s) % 2 == 0,
        cfg.crop_left(s) % 2 == 0,
        cfg.crop_top(s) % 2 == 0,
        2 <= cfg.crop_width(s) <= cfg.canvas_width,
        2 <= cfg.crop_height(s) <= cfg.canvas_height,
        cfg.crop_left(s) + cfg.crop_width(s) <= cfg.canvas_width,
        cfg.crop_top(s) + cfg.crop_height(s) <= cfg.canvas_height,
{
    lemma_axis_fits(s.current_mouse_x, cfg.used_width(s), cfg.canvas_width as int);
    lemma_axis_fits(s.current_mouse_y, cfg.used_height(s), cfg.canvas_height as int);
}

/// One axis of the crop: a length of at least two pixels gives an even
/// span inside the canvas.
proof fn lemma_axis_fits(focus: int, used: int, canvas: int)
    requires
        2 * ONE <= used,
        2 <= canvas,
    ensures
        2 <= crop_length(used, canvas) <= canvas,
        2 <= even_floor(crop_length(used, canvas)) <= canvas,
        even_floor(crop_length(used, canvas)) % 2 == 0,
        0 <= crop_origin(focus, crop_length(used, canvas), canvas),
        crop_origin(focus, crop_length(used, canvas), canvas) % 2 == 0,
        crop_origin(focus, crop_length(used, canvas), canvas) + even_floor(
            crop_length(used, canvas),
        ) <= canvas,
        used >= canvas * ONE && canvas % 2 == 0 ==> even_floor(crop_length(used, canvas)) == canvas
            && crop_origin(focus, crop_length(used, canvas), canvas) == 0,
{
    let length = crop_length(used, canvas);
    assert(round_to_whole(used) >= 2);
    let room = (canvas - length) * ONE;
    let inside = clamp(focus - length * HALF, 0, room);
    assert(0 <= inside <= room);
    assert(0 <= floor_to_whole(inside) <= canvas - length);
    if used >= canvas * ONE {
        assert(round_to_whole(used) >= canvas);
    }
}

/// A camera in the middle of a run: its configuration and its state.
///
/// A `Camera` can only be made by [`Camera::new`], which checks the
/// configuration, so every camera is well formed.
pub struct Camera {
    config: CameraConfig,
    state: CameraState,
}

impl Camera {
    #[verifier::type_invariant]
    spec fn inv(self) -> bool {
        self.config.wf() && self.state@.wf(self.config)
    }

    /// The configuration that the camera was made with.
    pub closed spec fn setup(&self) -> CameraConfig {
        self.config
    }

    /// The state of the camera.
    pub closed spec fn model(&self) -> CameraModel {
        self.state@
    }

    /// Sets up a camera for a recording of `base_width` by `base_height`
    /// pixels.
    ///
    /// The canvas of the camera is the recording enlarged by the upscale
    /// factor of the settings.  The configuration is refused if the
    /// enlarged canvas does not fit in 32 bits, or if it fails
    /// [`CameraConfig::check`]; otherwise the camera starts in the initial
    /// state.
    pub fn new(
        base_width: u32,
        base_height: u32,
        settings: CameraSettings,
        intervals: Vec<ZoomInterval>,
        mouse_events: Vec<MouseEvent>,
        window: SourceWindowInfo,
    ) -> (res: Result<Camera, ConfigError>)
        ensures
            base_width * settings.upscale_factor > u32::MAX || base_height
                * settings.upscale_factor > u32::MAX ==> res is Err && res->Err_0
                == ConfigError::CanvasTooLarge,
            base_width * settings.upscale_factor <= u32::MAX && base_height
                * settings.upscale_factor <= u32::MAX ==> ({
                let cfg = CameraConfig {
                    canvas_width: (base_width * settings.upscale_factor) as u32,
                    canvas_height: (base_height * settings.upscale_factor) as u32,
                    settings,
                    intervals,
                    mouse_events,
                    window,
                };
                match res {
                    Ok(camera) => cfg.wf() && cfg.verdict() is Ok && camera.setup() == cfg
                        && camera.model() == cfg.initial(),
                    Err(e) => !cfg.wf() && cfg.verdict() == Err::<(), ConfigError>(e),
                }
            }),
    {
        let width: u32 = match base_width.checked_mul(settings.upscale_factor) {
            Some(w) => w,
            None => {
                return Err(ConfigError::CanvasTooLarge);
            },
        };
        let height: u32 = match base_height.checked_mul(settings.upscale_factor) {
            Some(h) => h,
            None => {
                return Err(ConfigError::CanvasTooLarge);
            },
        };
        let config = CameraConfig {
            canvas_width: width,
            canvas_height: height,
            settings,
            intervals,
            mouse_events,
            window,
        };
        match config.check() {
            Ok(()) => {
                let state: CameraState = config.initial_state();
                Ok(Camera { config, state })
            },
            Err(e) => Err(e),
        }
    }

    /// The configuration that the camera was made with.
    pub fn config(&self) -> (cfg: &CameraConfig)
        ensures
            *cfg == self.setup(),
            cfg.wf(),
    {
        proof {
            use_type_invariant(self);
        }
        &self.config
    }

    /// The state of the camera.
    pub fn state(&self) -> (state: CameraState)
        ensures
            state@ == self.model(),
            state@.wf(self.setup()),
    {
        proof {
            use_type_invariant(self);
        }
        self.state
    }

    /// Takes the camera apart into its configuration and its state.
    pub fn into_parts(self) -> (parts: (CameraConfig, CameraState))
        ensures
            parts.0 == self.setup(),
            parts.1@ == self.model(),
            parts.0.wf(),
            parts.1@.wf(parts.0),
    {
        proof {
            use_type_invariant(&self);
        }
        (self.config, self.state)
    }

    /// The crop rectangle of the current state.
    pub fn current_crop(&self) -> (rect: CropRect)
        ensures
            self.setup().is_crop_of(rect, self.model()),
            rect.fits(self.setup().canvas_width as int, self.setup().canvas_height as int),
    {
        proof {
            use_type_invariant(self);
        }
        self.config.crop(&self.state)
    }

    /// Drives the camera through one frame and yields the crop rectangle
    /// of that frame.
    ///
    /// The frame's time follows from the frame counter; the state changes
    /// as [`CameraConfig::advance`] says, and the rectangle is the crop of
    /// the new state.  It has even sides of at least two pixels and lies
    /// inside the canvas.
    pub fn next_frame(&mut self) -> (rect: CropRect)
        requires
            old(self).model().frame_index < u32::MAX,
        ensures
            final(self).setup() == old(self).setup(),
            final(self).model() == old(self).setup().advance(old(self).model()),
            old(self).setup().is_crop_of(rect, final(self).model()),
            rect.fits(
                old(self).setup().canvas_width as int,
                old(self).setup().canvas_height as int,
            ),
    {
        proof {
            use_type_invariant(&*self);
        }
        let (next, rect) = self.config.frame(self.state);
        self.state = next;
        rect
    }
}

/// On every frame of a run the state is well formed, and the crop has even
/// sides of at least two pixels, begins at even coordinates and does not
/// leave the canvas.
pub proof fn lemma_every_crop_fits(cfg: CameraConfig, start: CameraModel, frames: nat)
    requires
        cfg.wf(),
        start.wf(cfg),
    ensures
        cfg.state_after(start, frames).wf(cfg),
        cfg.crop_width(cfg.state_after(start, frames)) % 2 == 0,
        cfg.crop_height(cfg.state_after(start, frames)) % 2 == 0,
        2 <= cfg.crop_width(cfg.state_after(start, frames)) <= cfg.canvas_width,
        2 <= cfg.crop_height(cfg.state_after(start, frames)) <= cfg.canvas_height,
        0 <= cfg.crop_left(cfg.state_after(start, frames)),
        0 <= cfg.crop_top(cfg.state_after(start, frames)),
        cfg.crop_left(cfg.state_after(start, frames)) + cfg.crop_width(
            cfg.state_after(start, frames),
        ) <= cfg.canvas_width,
        cfg.crop_top(cfg.state_after(start, frames)) + cfg.crop_height(
            cfg.state_after(start, frames),
        ) <= cfg.canvas_height,
    decreases frames,
{
    if frames > 0 {
        let before = cfg.state_after(start, (frames - 1) as nat);
        lemma_every_crop_fits(cfg, start, (frames - 1) as nat);
        lemma_state_at_keeps_wf(cfg, before, time_at(before.frame_index, cfg.settings.fps as int));
    }
    lemma_crop_fits(cfg, cfg.state_after(start, frames));
}

/// Without zoom intervals the camera never leaves its initial size: on
/// every frame the crop is the whole canvas.
pub proof fn lemma_no_intervals_no_zoom(cfg: CameraConfig, frames: nat)
    requires
        cfg.wf(),
        cfg.intervals@.len() == 0,
    ensures
        cfg.state_after(cfg.initial(), frames).phase() == Phase::Idle,
        cfg.crop_left(cfg.state_after(cfg.initial(), frames)) == 0,
        cfg.crop_top(cfg.state_after(cfg.initial(), frames)) == 0,
        cfg.crop_width(cfg.state_after(cfg.initial(), frames)) == cfg.canvas_width,
        cfg.crop_height(cfg.state_after(cfg.initial(), frames)) == cfg.canvas_height,
    decreases frames,
{
    lemma_stays_idle(cfg, frames);
    let s = cfg.state_after(cfg.initial(), frames);
    lemma_axis_fits(s.current_mouse_x, cfg.used_width(s), cfg.canvas_width as int);
    lemma_axis_fits(s.current_mouse_y, cfg.used_height(s), cfg.canvas_height as int);
}

/// Without zoom intervals the camera stays idle at the size of the canvas.
proof fn lemma_stays_idle(cfg: CameraConfig, frames: nat)
    requires
        cfg.wf(),
        cfg.intervals@.len() == 0,
    ensures
        !cfg.state_after(cfg.initial(), frames).zooming_in,
        !cfg.state_after(cfg.initial(), frames).zooming_out,
        cfg.state_after(cfg.initial(), frames).target_multiplier == ONE,
        cfg.state_after(cfg.initial(), frames).current_width == cfg.width_limit(),
        cfg.state_after(cfg.initial(), frames).current_height == cfg.height_limit(),
    decreases frames,
{
    if frames > 0 {
        lemma_stays_idle(cfg, (frames - 1) as nat);
        let before = cfg.state_after(cfg.initial(), (frames - 1) as nat);
        let t = time_at(before.frame_index, cfg.settings.fps as int);
        assert(cfg.apply_intervals(before, cfg.intervals@, t) == before);
        assert(cfg.canvas_width * before.target_multiplier == cfg.width_limit());
        assert(cfg.canvas_height * before.target_multiplier == cfg.height_limit());
    }
}

} // verus!
