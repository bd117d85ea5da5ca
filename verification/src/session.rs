//! One run of the transform, frame by frame.
//!
//! A [`Session`] is made from the checked inputs of a run.  It holds the
//! background row and the camera, and does everything on a frame that is
//! not decoding, resampling or encoding: it says how large the inset is,
//! composes the canvas around the inset, and cuts the crop of each frame
//! out of the enlarged canvas.

use crate::camera::{
    Camera, CameraConfig, CameraModel, CameraSettings, CameraState, CropRect,
};
use crate::compositor::{
    compose, inset_chroma_x, inset_chroma_y, inset_dimensions, inset_length, inset_x, inset_y,
    on_inset, on_inset_chroma,
};
use crate::config::{BackgroundSpec, Config, MouseEvent, SourceWindowInfo, ZoomInterval};
use crate::error::{ConfigError, InputError, TransformError};
use crate::frame::CanvasFrame;
use crate::gradient::{background_row, gradient_color, yuv_of, Yuv};
use crate::sampler::extract_region;
use vstd::prelude::*;

verus! {

/// The state of one run.
pub struct Session {
    config: CameraConfig,
    state: CameraState,
    row: Vec<Yuv>,
    base_width: u32,
    base_height: u32,
}

/// The configuration of the camera of a run, from the inputs of the run.
pub open spec fn camera_setup(
    config: Config,
    mouse_events: Vec<MouseEvent>,
    window: SourceWindowInfo,
    base_width: u32,
    base_height: u32,
    settings: CameraSettings,
) -> CameraConfig {
    CameraConfig {
        canvas_width: (base_width * settings.upscale_factor) as u32,
        canvas_height: (base_height * settings.upscale_factor) as u32,
        settings,
        intervals: config.zoom_info,
        mouse_events,
        window,
    }
}

/// What [`Session::new`] answers for the inputs of a run: the first check
/// that fails, or nothing if the run can begin.
pub open spec fn setup_verdict(
    config: Config,
    mouse_events: Vec<MouseEvent>,
    window: SourceWindowInfo,
    base_width: u32,
    base_height: u32,
    settings: CameraSettings,
) -> Result<(), ConfigError> {
    if config.verdict() is Err {
        config.verdict()
    } else if base_width * settings.upscale_factor > u32::MAX || base_height
        * settings.upscale_factor > u32::MAX {
        Err(ConfigError::CanvasTooLarge)
    } else {
        camera_setup(config, mouse_events, window, base_width, base_height, settings).verdict()
    }
}

impl Session {
    #[verifier::type_invariant]
    spec fn inv(self) -> bool {
        &&& self.row@.len() == self.base_width
        &&& self.config.wf()
        &&& self.state@.wf(self.config)
        &&& self.config.canvas_width == self.base_width * self.config.settings.upscale_factor
        &&& self.config.canvas_height == self.base_height * self.config.settings.upscale_factor
    }

    /// The configuration of the camera of the run.
    pub closed spec fn setup(&self) -> CameraConfig {
        self.config
    }

    /// The state of the camera of the run.
    pub closed spec fn model(&self) -> CameraModel {
        self.state@
    }

    /// The background: one entry for each column of the canvas.
    pub closed spec fn background(&self) -> Seq<Yuv> {
        self.row@
    }

    /// The width of the recording and of the output.
    pub closed spec fn width(&self) -> u32 {
        self.base_width
    }

    /// The height of the recording and of the output.
    pub closed spec fn height(&self) -> u32 {
        self.base_height
    }

    /// Begins a run on a recording of `base_width` by `base_height` pixels.
    ///
    /// The configuration is checked first, then the camera's.  A run
    /// begins if and only if both pass; otherwise the error is the first
    /// check that fails, as an input error.  The background is the
    /// gradient of the first background of the configuration.
    pub fn new(
        config: Config,
        mouse_events: Vec<MouseEvent>,
        window: SourceWindowInfo,
        base_width: u32,
        base_height: u32,
        settings: CameraSettings,
    ) -> (res: Result<Session, TransformError>)
        ensures
            res is Ok <==> setup_verdict(
                config,
                mouse_events,
                window,
                base_width,
                base_height,
                settings,
            ) is Ok,
            res matches Err(e) ==> setup_verdict(
                config,
                mouse_events,
                window,
                base_width,
                base_height,
                settings,
            ) is Err && e == TransformError::Input(
                InputError::Invalid(
                    setup_verdict(
                        config,
                        mouse_events,
                        window,
                        base_width,
                        base_height,
                        settings,
                    )->Err_0,
                ),
            ),
            res matches Ok(session) ==> {
                &&& session.width() == base_width
                &&& session.height() == base_height
                &&& session.setup() == camera_setup(
                    config,
                    mouse_events,
                    window,
                    base_width,
                    base_height,
                    settings,
                )
                &&& session.model() == session.setup().initial()
                &&& session.background().len() == base_width
                &&& forall|x: int|
                    0 <= x < base_width ==> #[trigger] session.background()[x] == yuv_of(
                        gradient_color(
                            config.background_info@[0].start_rgb,
                            config.background_info@[0].end_rgb,
                            x,
                            base_width as int,
                        ),
                    )
            },
    {
        match config.validate() {
            Ok(()) => {},
            Err(e) => {
                return Err(TransformError::Input(InputError::Invalid(e)));
            },
        }
        let background: BackgroundSpec = config.background_info[0];
        let intervals: Vec<ZoomInterval> = config.zoom_info;
        let camera: Camera = match Camera::new(
            base_width,
            base_height,
            settings,
            intervals,
            mouse_events,
            window,
        ) {
            Ok(camera) => camera,
            Err(e) => {
                return Err(TransformError::Input(InputError::Invalid(e)));
            },
        };
        let row: Vec<Yuv> = background_row(base_width as usize, &background);
        let (config, state) = camera.into_parts();
        Ok(Session { config, state, row, base_width, base_height })
    }

    /// The configuration of the camera of the run.
    pub fn config(&self) -> (cfg: &CameraConfig)
        ensures
            *cfg == self.setup(),
            cfg.wf(),
    {
        proof {
            use_type_invariant(self);
        }
        &self.config
    }

    /// The state of the camera of the run.
    pub fn state(&self) -> (state: CameraState)
        ensures
            state@ == self.model(),
            state@.wf(self.setup()),
    {
        proof {
            use_type_invariant(self);
        }
        self.state
    }

    /// The size of the inset: eight tenths of the recording.
    pub fn inset_size(&self) -> (size: (u32, u32))
        ensures
            size.0 == inset_length(self.width() as int),
            size.1 == inset_length(self.height() as int),
    {
        inset_dimensions(self.base_width, self.base_height)
    }

    /// The size of the enlarged canvas that the crop is taken from.
    pub fn canvas_size(&self) -> (size: (u32, u32))
        ensures
            size.0 == self.setup().canvas_width,
            size.1 == self.setup().canvas_height,
            size.0 == self.width() * self.setup().settings.upscale_factor,
            size.1 == self.height() * self.setup().settings.upscale_factor,
    {
        proof {
            use_type_invariant(self);
        }
        (self.config.canvas_width, self.config.canvas_height)
    }

    /// What [`Session::compose_canvas`] needs of an inset: well-formed
    /// planes, no larger than the recording, and a canvas that fits in
    /// memory.
    pub open spec fn accepts_inset(&self, inset: &CanvasFrame) -> bool {
        &&& inset.wf()
        &&& inset.width <= self.width()
        &&& inset.height <= self.height()
        &&& self.width() * self.height() <= usize::MAX
    }

    /// Builds the canvas of the next frame around `inset`.
    ///
    /// The canvas has the size of the recording.  It shows the inset in
    /// its centre and the background around it, and carries the index of
    /// the frame as its timestamp.  There is no canvas if the inset is
    /// not acceptable.
    pub fn compose_canvas(&self, inset: &CanvasFrame) -> (made: Option<CanvasFrame>)
        ensures
            made is Some <==> self.accepts_inset(inset),
            made matches Some(canvas) ==> {
                &&& canvas.wf()
                &&& canvas.width == self.width()
                &&& canvas.height == self.height()
                &&& canvas.pts == Some(self.model().frame_index as i64)
                &&& forall|x: int, y: int|
                    canvas.luma.holds(x, y) ==> #[trigger] canvas.luma.sample(x, y) == if on_inset(
                        &canvas,
                        inset,
                        x,
                        y,
                    ) {
                        inset.luma.sample(inset_x(&canvas, inset, x), inset_y(&canvas, inset, y))
                    } else {
                        self.background()[x].y
                    }
                &&& forall|x: int, y: int|
                    canvas.chroma_u.holds(x, y) ==> #[trigger] canvas.chroma_u.sample(x, y)
                        == if on_inset_chroma(&canvas, inset, x, y) {
                        inset.chroma_u.sample(
                            inset_chroma_x(&canvas, inset, x),
                            inset_chroma_y(&canvas, inset, y),
                        )
                    } else {
                        self.background()[2 * x].u
                    }
                &&& forall|x: int, y: int|
                    canvas.chroma_v.holds(x, y) ==> #[trigger] canvas.chroma_v.sample(x, y)
                        == if on_inset_chroma(&canvas, inset, x, y) {
                        inset.chroma_v.sample(
                            inset_chroma_x(&canvas, inset, x),
                            inset_chroma_y(&canvas, inset, y),
                        )
                    } else {
                        self.background()[2 * x].v
                    }
            },
    {
        proof {
            use_type_invariant(self);
        }
        if !inset.is_well_formed() || inset.width > self.base_width || inset.height
            > self.base_height {
            return None;
        }
        let mut canvas: CanvasFrame = match CanvasFrame::new(self.base_width, self.base_height) {
            Some(canvas) => canvas,
            None => {
                return None;
            },
        };
        canvas.pts = Some(self.state.frame_index as i64);
        let ghost blank = canvas;
        compose(&mut canvas, &self.row, inset);
        proof {
            assert(canvas.width == blank.width && canvas.height == blank.height);
            assert forall|x: int, y: int| canvas.luma.holds(x, y) implies on_inset(
                &canvas,
                inset,
                x,
                y,
            ) == on_inset(&blank, inset, x, y) by {}
        }
        Some(canvas)
    }

    /// What [`Session::crop_next`] needs: a well-formed enlarged canvas of
    /// the right size, and a frame counter that can still advance.
    pub open spec fn accepts_canvas(&self, enlarged: &CanvasFrame) -> bool {
        &&& enlarged.wf()
        &&& enlarged.width == self.setup().canvas_width
        &&& enlarged.height == self.setup().canvas_height
        &&& self.model().frame_index < u32::MAX
    }

    /// Drives the camera through the next frame and cuts its crop out of
    /// the enlarged canvas.
    ///
    /// The camera advances by one frame and the result holds the samples
    /// of the canvas inside the crop of that frame.  If the canvas is not
    /// acceptable there is no result, and the camera stays as it is.
    pub fn crop_next(&mut self, enlarged: &CanvasFrame) -> (made: Option<(CropRect, CanvasFrame)>)
        ensures
            final(self).width() == old(self).width(),
            final(self).height() == old(self).height(),
            final(self).background() == old(self).background(),
            final(self).setup() == old(self).setup(),
            made is Some <==> old(self).accepts_canvas(enlarged),
            made is None ==> final(self).model() == old(self).model(),
            made matches Some((rect, region)) ==> {
                &&& final(self).model() == old(self).setup().advance(
                    old(self).model(),
                )
                &&& old(self).setup().is_crop_of(rect, final(self).model())
                &&& rect.fits(enlarged.width as int, enlarged.height as int)
                &&& region.wf()
                &&& region.width == rect.width
                &&& region.height == rect.height
                &&& region.pts == enlarged.pts
                &&& forall|x: int, y: int|
                    region.luma.holds(x, y) ==> #[trigger] region.luma.sample(x, y)
                        == enlarged.luma.sample(rect.left + x, rect.top + y)
                &&& forall|x: int, y: int|
                    region.chroma_u.holds(x, y) ==> #[trigger] region.chroma_u.sample(x, y)
                        == enlarged.chroma_u.sample(rect.left / 2 + x, rect.top / 2 + y)
                &&& forall|x: int, y: int|
                    region.chroma_v.holds(x, y) ==> #[trigger] region.chroma_v.sample(x, y)
                        == enlarged.chroma_v.sample(rect.left / 2 + x, rect.top / 2 + y)
            },
    {
        proof {
            use_type_invariant(&*self);
        }
        if !enlarged.is_well_formed() || enlarged.width != self.config.canvas_width
            || enlarged.height != self.config.canvas_height || self.state.frame_index == u32::MAX {
            return None;
        }
        let (next, rect) = self.config.frame(self.state);
        self.state = next;
        let region: CanvasFrame = extract_region(enlarged, &rect);
        Some((rect, region))
    }
}

} // verus!
