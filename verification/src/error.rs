//! The ways a run can fail, and how each is described to the caller.
//!
//! An error names what failed.  The text of the underlying failure, where
//! there is one, belongs to the caller, who appends it to the description.

use vstd::prelude::*;
use vstd::string::*;

verus! {

/// A configuration that the pipeline refuses before it reads a frame.
#[derive(Clone, Copy, Debug, PartialEq, Eq)]
pub enum ConfigError {
    /// The list of backgrounds is empty.
    MissingBackground,
    /// The zoom factor of the interval at `index` is not in `(0, 1000]`.
    ZoomFactorOutOfRange { index: usize },
    /// The crop of the interval at `index` would be under two pixels wide
    /// or high.
    CropTooSmall { index: usize },
    /// The frame rate is zero.
    ZeroFrameRate,
    /// The length of the zoom-out animation is negative.
    NegativeAnimationDuration,
    /// The decay of the filter is not in `[0, 1]`.
    DecayOutOfRange,
    /// The weight of the second smoothing is not in `[0, 1]`.
    SmoothingOutOfRange,
    /// The enlarged canvas has a side that does not fit in 32 bits.
    CanvasTooLarge,
    /// The canvas has a side of fewer than two pixels.
    CanvasTooSmall,
    /// The canvas has a side with an odd number of pixels.
    OddCanvas,
}

/// One of the three inputs of a run.
#[derive(Clone, Copy, Debug, PartialEq, Eq)]
pub enum InputFile {
    Configuration,
    MouseLog,
    WindowDescriptor,
}

/// An input that could not be used; the run fails before the decode loop.
#[derive(Clone, Copy, Debug, PartialEq, Eq)]
pub enum InputError {
    /// The input could not be read.
    Unreadable(InputFile),
    /// The input could not be parsed.
    Malformed(InputFile),
    /// The input was parsed and then refused.
    Invalid(ConfigError),
}

/// What went wrong while the streams were set up; the run fails before any
/// frame is processed.
#[derive(Clone, Copy, Debug, PartialEq, Eq)]
pub enum StreamError {
    Initialise,
    OpenInput,
    NoVideoStream,
    DecoderContext,
    DecoderSetup,
    OutputSetup,
    NoEncoder,
    AddStream,
    EncoderSetup,
    EncoderOpen,
    WriteHeader,
}

/// The call of the codec or container that failed in the middle of a run.
#[derive(Clone, Copy, Debug, PartialEq, Eq)]
pub enum CodecStage {
    ReadPacket,
    SendPacket,
    ReceiveFrame,
    SendFrame,
    ReceivePacket,
    WritePacket,
    Flush,
    WriteTrailer,
}

/// The resampling stage whose scaling context could not be made or run.
#[derive(Clone, Copy, Debug, PartialEq, Eq)]
pub enum ResampleStage {
    Inset,
    Upscale,
    Zoom,
}

/// Why a run was aborted.
#[derive(Clone, Copy, Debug, PartialEq, Eq)]
pub enum TransformError {
    Input(InputError),
    Stream(StreamError),
    Codec(CodecStage),
    Resample(ResampleStage),
}

impl ConfigError {
    /// The description of the error.
    pub open spec fn description(self) -> Seq<char> {
        match self {
            ConfigError::MissingBackground => "Configuration has no background"@,
            ConfigError::ZoomFactorOutOfRange { .. } => "Zoom factor is out of range"@,
            ConfigError::CropTooSmall { .. } => "Zoom factor leaves a crop under two pixels"@,
            ConfigError::ZeroFrameRate => "Frame rate is zero"@,
            ConfigError::NegativeAnimationDuration => "Animation duration is negative"@,
            ConfigError::DecayOutOfRange => "Decay is out of range"@,
            ConfigError::SmoothingOutOfRange => "Smoothing factor is out of range"@,
            ConfigError::CanvasTooLarge => "Canvas is too large"@,
            ConfigError::CanvasTooSmall => "Canvas is too small"@,
            ConfigError::OddCanvas => "Canvas has an odd side"@,
        }
    }

    /// Describes the error.
    pub fn message(&self) -> (text: String)
        ensures
            text@ == self.description(),
    {
        match self {
            ConfigError::MissingBackground => "Configuration has no background".to_string(),
            ConfigError::ZoomFactorOutOfRange { .. } => "Zoom factor is out of range".to_string(),
            ConfigError::CropTooSmall { .. } => "Zoom factor leaves a crop under two pixels".to_string(),
            ConfigError::ZeroFrameRate => "Frame rate is zero".to_string(),
            ConfigError::NegativeAnimationDuration => "Animation duration is negative".to_string(),
            ConfigError::DecayOutOfRange => "Decay is out of range".to_string(),
            ConfigError::SmoothingOutOfRange => "Smoothing factor is out of range".to_string(),
            ConfigError::CanvasTooLarge => "Canvas is too large".to_string(),
            ConfigError::CanvasTooSmall => "Canvas is too small".to_string(),
            ConfigError::OddCanvas => "Canvas has an odd side".to_string(),
        }
    }
}

impl InputError {
    /// The description of the error.
    pub open spec fn description(self) -> Seq<char> {
        match self {
            InputError::Unreadable(InputFile::Configuration) => "Failed to read config file"@,
            InputError::Unreadable(InputFile::MouseLog) => "Could not open mouse events file"@,
            InputError::Unreadable(InputFile::WindowDescriptor) => "Could not open window data file"@,
            InputError::Malformed(InputFile::Configuration) => "Failed to parse config JSON"@,
            InputError::Malformed(InputFile::MouseLog) => "Failed to parse mouse events JSON"@,
            InputError::Malformed(InputFile::WindowDescriptor) => "Failed to parse window data JSON"@,
            InputError::Invalid(e) => e.description(),
        }
    }

    /// Describes the error.
    pub fn message(&self) -> (text: String)
        ensures
            text@ == self.description(),
    {
        match self {
            InputError::Unreadable(InputFile::Configuration) => "Failed to read config file".to_string(),
            InputError::Unreadable(InputFile::MouseLog) => "Could not open mouse events file".to_string(),
            InputError::Unreadable(InputFile::WindowDescriptor) => "Could not open window data file".to_string(),
            InputError::Malformed(InputFile::Configuration) => "Failed to parse config JSON".to_string(),
            InputError::Malformed(InputFile::MouseLog) => "Failed to parse mouse events JSON".to_string(),
            InputError::Malformed(InputFile::WindowDescriptor) => "Failed to parse window data JSON".to_string(),
            InputError::Invalid(e) => e.message(),
        }
    }
}

impl StreamError {
    /// The description of the error.
    pub open spec fn description(self) -> Seq<char> {
        match self {
            StreamError::Initialise => "Failed to initialize FFmpeg"@,
            StreamError::OpenInput => "Could not open file"@,
            StreamError::NoVideoStream => "No video stream found"@,
            StreamError::DecoderContext => "Failed to create decoder context"@,
            StreamError::DecoderSetup => "Failed to create video decoder"@,
            StreamError::OutputSetup => "Could not create output context"@,
            StreamError::NoEncoder => "Could not find libx264 encoder"@,
            StreamError::AddStream => "Failed to add output stream"@,
            StreamError::EncoderSetup => "Failed to create video encoder"@,
            StreamError::EncoderOpen => "Couldn't open encoder"@,
            StreamError::WriteHeader => "Error occurred when opening output file"@,
        }
    }

    /// Describes the error.
    pub fn message(&self) -> (text: String)
        ensures
            text@ == self.description(),
    {
        match self {
            StreamError::Initialise => "Failed to initialize FFmpeg".to_string(),
            StreamError::OpenInput => "Could not open file".to_string(),
            StreamError::NoVideoStream => "No video stream found".to_string(),
            StreamError::DecoderContext => "Failed to create decoder context".to_string(),
            StreamError::DecoderSetup => "Failed to create video decoder".to_string(),
            StreamError::OutputSetup => "Could not create output context".to_string(),
            StreamError::NoEncoder => "Could not find libx264 encoder".to_string(),
            StreamError::AddStream => "Failed to add output stream".to_string(),
            StreamError::EncoderSetup => "Failed to create video encoder".to_string(),
            StreamError::EncoderOpen => "Couldn't open encoder".to_string(),
            StreamError::WriteHeader => "Error occurred when opening output file".to_string(),
        }
    }
}

impl CodecStage {
    /// The description of a failure at this stage.
    pub open spec fn description(self) -> Seq<char> {
        match self {
            CodecStage::ReadPacket => "Error reading packet"@,
            CodecStage::SendPacket => "Error sending packet for decoding"@,
            CodecStage::ReceiveFrame => "Error receiving decoded frame"@,
            CodecStage::SendFrame => "Error sending frame for encoding"@,
            CodecStage::ReceivePacket => "Error receiving encoded packet"@,
            CodecStage::WritePacket => "Error writing packet"@,
            CodecStage::Flush => "Error flushing encoder"@,
            CodecStage::WriteTrailer => "Error occurred when writing trailer"@,
        }
    }

    /// Describes a failure at this stage.
    pub fn message(&self) -> (text: String)
        ensures
            text@ == self.description(),
    {
        match self {
            CodecStage::ReadPacket => "Error reading packet".to_string(),
            CodecStage::SendPacket => "Error sending packet for decoding".to_string(),
            CodecStage::ReceiveFrame => "Error receiving decoded frame".to_string(),
            CodecStage::SendFrame => "Error sending frame for encoding".to_string(),
            CodecStage::ReceivePacket => "Error receiving encoded packet".to_string(),
            CodecStage::WritePacket => "Error writing packet".to_string(),
            CodecStage::Flush => "Error flushing encoder".to_string(),
            CodecStage::WriteTrailer => "Error occurred when writing trailer".to_string(),
        }
    }
}

impl ResampleStage {
    /// The description of a failure at this stage.
    pub open spec fn description(self) -> Seq<char> {
        match self {
            ResampleStage::Inset => "Failed to scale inset frame"@,
            ResampleStage::Upscale => "Failed to scale canvas frame"@,
            ResampleStage::Zoom => "Failed to scale zoomed frame"@,
        }
    }

    /// Describes a failure at this stage.
    pub fn message(&self) -> (text: String)
        ensures
            text@ == self.description(),
    {
        match self {
            ResampleStage::Inset => "Failed to scale inset frame".to_string(),
            ResampleStage::Upscale => "Failed to scale canvas frame".to_string(),
            ResampleStage::Zoom => "Failed to scale zoomed frame".to_string(),
        }
    }
}

impl TransformError {
    /// The description of the error.
    pub open spec fn description(self) -> Seq<char> {
        match self {
            TransformError::Input(e) => e.description(),
            TransformError::Stream(e) => e.description(),
            TransformError::Codec(stage) => stage.description(),
            TransformError::Resample(stage) => stage.description(),
        }
    }

    /// Describes the error.
    pub fn message(&self) -> (text: String)
        ensures
            text@ == self.description(),
    {
        match self {
            TransformError::Input(e) => e.message(),
            TransformError::Stream(e) => e.message(),
            TransformError::Codec(stage) => stage.message(),
            TransformError::Resample(stage) => stage.message(),
        }
    }
}

} // verus!
