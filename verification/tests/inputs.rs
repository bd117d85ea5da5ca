use zoompan::camera::{CameraSettings, CropRect, Phase};
use zoompan::config::{BackgroundSpec, Config, MouseEvent, Rgb, SourceWindowInfo, ZoomInterval};
use zoompan::error::{
    CodecStage, ConfigError, InputError, InputFile, ResampleStage, StreamError, TransformError,
};
use zoompan::fixed::{pixels, ONE};
use zoompan::frame::CanvasFrame;
use zoompan::gradient::Yuv;
use zoompan::session::Session;

fn grey() -> BackgroundSpec {
    BackgroundSpec { start_rgb: Rgb::from_levels(0, 0, 0), end_rgb: Rgb::from_levels(255, 255, 255) }
}

fn window() -> SourceWindowInfo {
    SourceWindowInfo { x: 0, y: 0, width: 8, height: 4, scale_factor: ONE }
}

fn config(zoom_info: Vec<ZoomInterval>) -> Config {
    Config { duration_ms: 5000, zoom_info, background_info: vec![grey()] }
}

fn interval(start_ms: i32, end_ms: i32, zoom_factor: i64) -> ZoomInterval {
    ZoomInterval { start_ms, end_ms, zoom_factor }
}

#[test]
fn colours_are_made_from_whole_levels() {
    assert_eq!(Rgb::from_levels(0, 128, 255), Rgb { r: 0, g: 128_000_000, b: 255_000_000 });
}

#[test]
fn configuration_needs_a_background() {
    let mut c = config(vec![]);
    assert_eq!(c.validate(), Ok(()));
    assert_eq!(c.background(), Ok(grey()));
    c.background_info.clear();
    assert_eq!(c.validate(), Err(ConfigError::MissingBackground));
    assert_eq!(c.background(), Err(ConfigError::MissingBackground));
    // the missing background is reported before a bad zoom factor
    c.zoom_info.push(interval(0, 1, 0));
    assert_eq!(c.validate(), Err(ConfigError::MissingBackground));
}

#[test]
fn configuration_takes_the_first_background() {
    let mut c = config(vec![]);
    let other =
        BackgroundSpec { start_rgb: Rgb::from_levels(1, 2, 3), end_rgb: Rgb::from_levels(4, 5, 6) };
    c.background_info.insert(0, other);
    assert_eq!(c.background(), Ok(other));
}

#[test]
fn configuration_needs_zoom_factors_in_range() {
    assert_eq!(config(vec![interval(0, 1, 1)]).validate(), Ok(()));
    assert_eq!(config(vec![interval(0, 1, 1_000_000_000)]).validate(), Ok(()));
    assert_eq!(config(vec![interval(5, 1, ONE)]).validate(), Ok(()));
    assert_eq!(
        config(vec![interval(0, 1, ONE), interval(0, 1, 0), interval(0, 1, -1)]).validate(),
        Err(ConfigError::ZoomFactorOutOfRange { index: 1 })
    );
    assert_eq!(
        config(vec![interval(0, 1, 1_000_000_001)]).validate(),
        Err(ConfigError::ZoomFactorOutOfRange { index: 0 })
    );
}

#[test]
fn overlapping_intervals_are_found() {
    assert!(!config(vec![]).has_overlapping_intervals());
    assert!(!config(vec![interval(0, 10, ONE)]).has_overlapping_intervals());
    assert!(!config(vec![interval(0, 10, ONE), interval(10, 20, ONE)]).has_overlapping_intervals());
    assert!(config(vec![interval(0, 11, ONE), interval(10, 20, ONE)]).has_overlapping_intervals());
    assert!(config(vec![interval(30, 40, ONE), interval(0, 5, ONE), interval(39, 50, ONE)])
        .has_overlapping_intervals());
    assert!(config(vec![interval(0, 100, ONE), interval(10, 20, ONE)]).has_overlapping_intervals());
    // an empty interval overlaps nothing
    assert!(!config(vec![interval(0, 100, ONE), interval(20, 20, ONE)]).has_overlapping_intervals());
    assert!(interval(0, 10, ONE).is_overlapping(&interval(9, 12, ONE)));
    assert!(!interval(0, 10, ONE).is_overlapping(&interval(10, 12, ONE)));
}

#[test]
fn errors_describe_themselves() {
    assert_eq!(ConfigError::MissingBackground.message(), "Configuration has no background");
    assert_eq!(ConfigError::ZoomFactorOutOfRange { index: 3 }.message(), "Zoom factor is out of range");
    assert_eq!(
        ConfigError::CropTooSmall { index: 0 }.message(),
        "Zoom factor leaves a crop under two pixels"
    );
    assert_eq!(ConfigError::ZeroFrameRate.message(), "Frame rate is zero");
    assert_eq!(ConfigError::NegativeAnimationDuration.message(), "Animation duration is negative");
    assert_eq!(ConfigError::DecayOutOfRange.message(), "Decay is out of range");
    assert_eq!(ConfigError::SmoothingOutOfRange.message(), "Smoothing factor is out of range");
    assert_eq!(ConfigError::CanvasTooLarge.message(), "Canvas is too large");
    assert_eq!(ConfigError::CanvasTooSmall.message(), "Canvas is too small");
    assert_eq!(ConfigError::OddCanvas.message(), "Canvas has an odd side");
    assert_eq!(
        InputError::Unreadable(InputFile::Configuration).message(),
        "Failed to read config file"
    );
    assert_eq!(
        InputError::Unreadable(InputFile::MouseLog).message(),
        "Could not open mouse events file"
    );
    assert_eq!(
        InputError::Unreadable(InputFile::WindowDescriptor).message(),
        "Could not open window data file"
    );
    assert_eq!(
        InputError::Malformed(InputFile::Configuration).message(),
        "Failed to parse config JSON"
    );
    assert_eq!(
        InputError::Malformed(InputFile::MouseLog).message(),
        "Failed to parse mouse events JSON"
    );
    assert_eq!(
        InputError::Malformed(InputFile::WindowDescriptor).message(),
        "Failed to parse window data JSON"
    );
    assert_eq!(InputError::Invalid(ConfigError::OddCanvas).message(), "Canvas has an odd side");
    assert_eq!(StreamError::Initialise.message(), "Failed to initialize FFmpeg");
    assert_eq!(StreamError::OpenInput.message(), "Could not open file");
    assert_eq!(StreamError::DecoderContext.message(), "Failed to create decoder context");
    assert_eq!(StreamError::AddStream.message(), "Failed to add output stream");
    assert_eq!(StreamError::EncoderOpen.message(), "Couldn't open encoder");
    assert_eq!(StreamError::NoVideoStream.message(), "No video stream found");
    assert_eq!(StreamError::DecoderSetup.message(), "Failed to create video decoder");
    assert_eq!(StreamError::OutputSetup.message(), "Could not create output context");
    assert_eq!(StreamError::NoEncoder.message(), "Could not find libx264 encoder");
    assert_eq!(StreamError::EncoderSetup.message(), "Failed to create video encoder");
    assert_eq!(StreamError::WriteHeader.message(), "Error occurred when opening output file");
    assert_eq!(CodecStage::ReadPacket.message(), "Error reading packet");
    assert_eq!(CodecStage::SendPacket.message(), "Error sending packet for decoding");
    assert_eq!(CodecStage::ReceiveFrame.message(), "Error receiving decoded frame");
    assert_eq!(CodecStage::SendFrame.message(), "Error sending frame for encoding");
    assert_eq!(CodecStage::ReceivePacket.message(), "Error receiving encoded packet");
    assert_eq!(CodecStage::WritePacket.message(), "Error writing packet");
    assert_eq!(CodecStage::Flush.message(), "Error flushing encoder");
    assert_eq!(CodecStage::WriteTrailer.message(), "Error occurred when writing trailer");
    assert_eq!(ResampleStage::Inset.message(), "Failed to scale inset frame");
    assert_eq!(ResampleStage::Upscale.message(), "Failed to scale canvas frame");
    assert_eq!(ResampleStage::Zoom.message(), "Failed to scale zoomed frame");
    assert_eq!(
        TransformError::Input(InputError::Invalid(ConfigError::MissingBackground)).message(),
        "Configuration has no background"
    );
    assert_eq!(TransformError::Stream(StreamError::NoVideoStream).message(), "No video stream found");
    assert_eq!(
        TransformError::Codec(CodecStage::SendFrame).message(),
        "Error sending frame for encoding"
    );
    assert_eq!(
        TransformError::Resample(ResampleStage::Zoom).message(),
        "Failed to scale zoomed frame"
    );
}

#[test]
fn session_refuses_bad_inputs_in_order() {
    let settings = CameraSettings::standard();
    let begin = |c: Config, w: u32, h: u32, s: CameraSettings| {
        Session::new(c, vec![], window(), w, h, s).err()
    };
    let invalid = |e: ConfigError| Some(TransformError::Input(InputError::Invalid(e)));
    assert_eq!(begin(config(vec![]), 8, 4, settings), None);
    let mut none = config(vec![interval(0, 1, 0)]);
    none.background_info.clear();
    assert_eq!(begin(none, 7, 4, settings), invalid(ConfigError::MissingBackground));
    assert_eq!(
        begin(config(vec![interval(0, 1, 0)]), u32::MAX, 4, settings),
        invalid(ConfigError::ZoomFactorOutOfRange { index: 0 })
    );
    assert_eq!(begin(config(vec![]), u32::MAX, 4, settings), invalid(ConfigError::CanvasTooLarge));
    let mut odd = settings;
    odd.upscale_factor = 1;
    assert_eq!(begin(config(vec![]), 7, 4, odd), invalid(ConfigError::OddCanvas));
    assert_eq!(begin(config(vec![]), 7, 4, settings), None);
    assert_eq!(
        begin(config(vec![interval(0, 1, 1)]), 8, 4, settings),
        invalid(ConfigError::CropTooSmall { index: 0 })
    );
    let mut still = settings;
    still.fps = 0;
    assert_eq!(begin(config(vec![]), 8, 4, still), invalid(ConfigError::ZeroFrameRate));
}

#[test]
fn session_composes_and_crops_a_frame() {
    let mut settings = CameraSettings::standard();
    settings.upscale_factor = 2;
    let events = vec![MouseEvent { x: 0, y: 0, timestamp_ms: 0 }];
    let zoom = vec![interval(0, 1000, 500_000)];
    let mut session = Session::new(config(zoom), events, window(), 10, 4, settings).unwrap();
    assert_eq!(session.inset_size(), (8, 3));
    assert_eq!(session.canvas_size(), (20, 8));
    assert_eq!(session.config().canvas_width, 20);
    assert_eq!(session.state().phase(), Phase::Idle);

    let mut inset = CanvasFrame::new(8, 3).unwrap();
    for x in 0..8 {
        for y in 0..3 {
            inset.luma.set(x, y, 200);
        }
    }
    let canvas = session.compose_canvas(&inset).unwrap();
    assert!(canvas.is_well_formed());
    assert_eq!((canvas.width, canvas.height, canvas.pts), (10, 4, Some(0)));
    // the gradient over ten columns: 0, 28, 56, 85, 113, 141, 170, 198, 226, 255;
    // the inset covers columns 1 to 8 of rows 0 to 2
    assert_eq!(
        canvas.luma.data,
        vec![
            0, 200, 200, 200, 200, 200, 200, 200, 200, 255, //
            0, 200, 200, 200, 200, 200, 200, 200, 200, 255, //
            0, 200, 200, 200, 200, 200, 200, 200, 200, 255, //
            0, 28, 56, 85, 113, 141, 170, 198, 226, 255,
        ]
    );
    assert_eq!(canvas.chroma_u.data, vec![128; 10]);

    let mut enlarged = CanvasFrame::new(20, 8).unwrap();
    for x in 0..20 {
        for y in 0..8 {
            enlarged.luma.set(x, y, (y * 20 + x) as u8);
        }
    }
    enlarged.pts = Some(0);
    let (rect, region) = session.crop_next(&enlarged).unwrap();
    let state = session.state();
    assert_eq!(state.frame_index, 1);
    assert_eq!(state.phase(), Phase::ZoomingIn);
    // the event at (0, 0) maps to the corner of the inset: (2, 0.8)
    assert_eq!(state.current_mouse_x, pixels(2));
    assert_eq!(state.current_mouse_y, 800_000);
    // 20 - 10 * 0.018316 = 19.81684 -> 20; 8 - 4 * 0.018316 = 7.926736 -> 8
    assert_eq!(rect, CropRect { left: 0, top: 0, width: 20, height: 8 });
    assert_eq!(region, enlarged);
    let canvas = session.compose_canvas(&inset).unwrap();
    assert_eq!(canvas.pts, Some(1));
}

#[test]
fn session_refuses_frames_of_the_wrong_size() {
    let mut session =
        Session::new(config(vec![]), vec![], window(), 10, 4, CameraSettings::standard()).unwrap();
    assert_eq!(session.compose_canvas(&CanvasFrame::new(11, 4).unwrap()), None);
    assert_eq!(session.compose_canvas(&CanvasFrame::new(10, 5).unwrap()), None);
    let mut broken = CanvasFrame::new(8, 3).unwrap();
    broken.luma.data.pop();
    assert_eq!(session.compose_canvas(&broken), None);
    assert!(session.compose_canvas(&CanvasFrame::new(10, 4).unwrap()).is_some());
    assert!(session.compose_canvas(&CanvasFrame::new(0, 0).unwrap()).is_some());

    assert_eq!(session.crop_next(&CanvasFrame::new(10, 4).unwrap()), None);
    assert_eq!(session.crop_next(&CanvasFrame::new(40, 15).unwrap()), None);
    let mut broken = CanvasFrame::new(40, 16).unwrap();
    broken.chroma_v.data.push(0);
    assert_eq!(session.crop_next(&broken), None);
    assert_eq!(session.state().frame_index, 0);
    assert!(session.crop_next(&CanvasFrame::new(40, 16).unwrap()).is_some());
    assert_eq!(session.state().frame_index, 1);
}

#[test]
fn session_background_is_the_gradient_of_the_first_background() {
    let session =
        Session::new(config(vec![]), vec![], window(), 4, 2, CameraSettings::standard()).unwrap();
    let canvas = session.compose_canvas(&CanvasFrame::new(0, 0).unwrap()).unwrap();
    assert_eq!(canvas.luma.data, vec![0, 85, 170, 255, 0, 85, 170, 255]);
    assert_eq!(canvas.chroma_u.data, vec![128, 128]);
    let _ = Yuv { y: 0, u: 0, v: 0 };
}
