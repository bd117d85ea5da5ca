//! The order of work in a run, as a state machine.
//!
//! The caller owns the demuxer, the codecs and the resamplers.  It asks
//! the machine what to do next, does it, and reports how it went.  The
//! machine decides what follows:
//!
//! * a video packet is sent to the decoder, and the decoder is drained of
//!   frames until it asks for more input;
//! * each frame is composed, cropped, rescaled and sent to the encoder,
//!   and the encoder is drained of packets until it asks for more input;
//! * when the input ends the encoder is flushed and drained once more, and
//!   the trailer is written.
//!
//! A codec that asks for more input has not failed.  Every other failure
//! ends the run.

use crate::error::{CodecStage, ResampleStage, TransformError};
use vstd::prelude::*;

verus! {

/// What the caller is to do next.
#[derive(Clone, Copy, Debug, PartialEq, Eq)]
pub enum Step {
    /// Read the next packet of the input.
    ReadPacket,
    /// Send the packet to the decoder.
    SendPacket,
    /// Ask the decoder for a frame.
    ReceiveFrame,
    /// Scale the decoded frame down to the inset, and compose the canvas.
    ScaleInset,
    /// Enlarge the canvas, and take the crop of this frame.
    UpscaleCanvas,
    /// Scale the crop to the size of the output.
    ScaleRegion,
    /// Send the finished frame to the encoder.
    SendFrame,
    /// Ask the encoder for a packet.
    ReceivePacket,
    /// Write the packet to the output.
    WritePacket,
    /// Tell the encoder that no frame will follow.
    SendEndOfStream,
    /// Write the trailer of the output.
    WriteTrailer,
    /// The run is complete.
    Finished,
    /// The run was aborted.
    Failed(TransformError),
}

/// How the step went.
#[derive(Clone, Copy, Debug, PartialEq, Eq)]
pub enum Outcome {
    /// The step succeeded and produced nothing to look at.
    Done,
    /// The packet that was read belongs to the video stream.
    VideoPacket,
    /// The packet that was read belongs to another stream.
    OtherPacket,
    /// The input has no more packets.
    EndOfInput,
    /// The codec handed out a frame or a packet.
    Output,
    /// The codec has nothing to hand out until it is given more input.
    TryAgain,
    /// The flushed codec has handed out everything.
    EndOfStream,
    /// The step failed.
    Failure,
}

/// The state of a run: the step that is due, and whether the encoder has
/// been told that the input has ended.
#[derive(Clone, Copy, Debug, PartialEq, Eq)]
pub struct Pipeline {
    pub step: Step,
    pub flushing: bool,
}

impl Step {
    /// The run has ended, well or badly.
    pub open spec fn is_terminal(self) -> bool {
        self is Finished || self is Failed
    }

    /// The error that a failure of this step amounts to; a run that has
    /// ended has no step left to fail.
    pub open spec fn failure(self) -> Option<TransformError> {
        match self {
            Step::ReadPacket => Some(TransformError::Codec(CodecStage::ReadPacket)),
            Step::SendPacket => Some(TransformError::Codec(CodecStage::SendPacket)),
            Step::ReceiveFrame => Some(TransformError::Codec(CodecStage::ReceiveFrame)),
            Step::ScaleInset => Some(TransformError::Resample(ResampleStage::Inset)),
            Step::UpscaleCanvas => Some(TransformError::Resample(ResampleStage::Upscale)),
            Step::ScaleRegion => Some(TransformError::Resample(ResampleStage::Zoom)),
            Step::SendFrame => Some(TransformError::Codec(CodecStage::SendFrame)),
            Step::ReceivePacket => Some(TransformError::Codec(CodecStage::ReceivePacket)),
            Step::WritePacket => Some(TransformError::Codec(CodecStage::WritePacket)),
            Step::SendEndOfStream => Some(TransformError::Codec(CodecStage::Flush)),
            Step::WriteTrailer => Some(TransformError::Codec(CodecStage::WriteTrailer)),
            Step::Finished => None,
            Step::Failed(_) => None,
        }
    }

    /// Names the error that a failure of this step amounts to.
    pub fn failure_of(&self) -> (e: Option<TransformError>)
        ensures
            e == self.failure(),
            e is None <==> self.is_terminal(),
    {
        match self {
            Step::ReadPacket => Some(TransformError::Codec(CodecStage::ReadPacket)),
            Step::SendPacket => Some(TransformError::Codec(CodecStage::SendPacket)),
            Step::ReceiveFrame => Some(TransformError::Codec(CodecStage::ReceiveFrame)),
            Step::ScaleInset => Some(TransformError::Resample(ResampleStage::Inset)),
            Step::UpscaleCanvas => Some(TransformError::Resample(ResampleStage::Upscale)),
            Step::ScaleRegion => Some(TransformError::Resample(ResampleStage::Zoom)),
            Step::SendFrame => Some(TransformError::Codec(CodecStage::SendFrame)),
            Step::ReceivePacket => Some(TransformError::Codec(CodecStage::ReceivePacket)),
            Step::WritePacket => Some(TransformError::Codec(CodecStage::WritePacket)),
            Step::SendEndOfStream => Some(TransformError::Codec(CodecStage::Flush)),
            Step::WriteTrailer => Some(TransformError::Codec(CodecStage::WriteTrailer)),
            Step::Finished => None,
            Step::Failed(_) => None,
        }
    }
}

impl Pipeline {
    /// The state at the beginning of a run.
    pub open spec fn initial() -> Pipeline {
        Pipeline { step: Step::ReadPacket, flushing: false }
    }

    /// The same run at another step.
    pub open spec fn at(self, step: Step) -> Pipeline {
        Pipeline { step, flushing: self.flushing }
    }

    /// The run aborted by a failure of the due step; a run that has ended
    /// stays as it is.
    pub open spec fn aborted(self) -> Pipeline {
        match self.step.failure() {
            Some(error) => self.at(Step::Failed(error)),
            None => self,
        }
    }

    /// The state after the due step has gone as `outcome` says.
    ///
    /// An outcome that the step cannot have counts as a failure of the
    /// step.  A run that has ended stays as it is.
    pub open spec fn next(self, outcome: Outcome) -> Pipeline {
        match (self.step, outcome) {
            (Step::Finished, _) => self,
            (Step::Failed(_), _) => self,
            (Step::ReadPacket, Outcome::VideoPacket) => self.at(Step::SendPacket),
            (Step::ReadPacket, Outcome::OtherPacket) => self.at(Step::ReadPacket),
            (Step::ReadPacket, Outcome::EndOfInput) => self.at(Step::SendEndOfStream),
            (Step::SendPacket, Outcome::Done) => self.at(Step::ReceiveFrame),
            (Step::ReceiveFrame, Outcome::Output) => self.at(Step::ScaleInset),
            (Step::ReceiveFrame, Outcome::TryAgain) => self.at(Step::ReadPacket),
            (Step::ScaleInset, Outcome::Done) => self.at(Step::UpscaleCanvas),
            (Step::UpscaleCanvas, Outcome::Done) => self.at(Step::ScaleRegion),
            (Step::ScaleRegion, Outcome::Done) => self.at(Step::SendFrame),
            (Step::SendFrame, Outcome::Done) => self.at(Step::ReceivePacket),
            (Step::ReceivePacket, Outcome::Output) => self.at(Step::WritePacket),
            (Step::ReceivePacket, Outcome::TryAgain) => if self.flushing {
                self.at(Step::WriteTrailer)
            } else {
                self.at(Step::ReceiveFrame)
            },
            (Step::ReceivePacket, Outcome::EndOfStream) => if self.flushing {
                self.at(Step::WriteTrailer)
            } else {
                self.aborted()
            },
            (Step::WritePacket, Outcome::Done) => self.at(Step::ReceivePacket),
            (Step::SendEndOfStream, Outcome::Done) => Pipeline {
                step: Step::ReceivePacket,
                flushing: true,
            },
            (Step::WriteTrailer, Outcome::Done) => self.at(Step::Finished),
            _ => self.aborted(),
        }
    }

    /// The state after the steps have gone as `outcomes` say, one after
    /// the other.
    pub open spec fn run(self, outcomes: Seq<Outcome>) -> Pipeline
        decreases outcomes.len(),
    {
        if outcomes.len() == 0 {
            self
        } else {
            self.run(outcomes.drop_last()).next(outcomes.last())
        }
    }

    /// How often the steps of the run have led to the step that writes
    /// the trailer.
    pub open spec fn trailer_requests(self, outcomes: Seq<Outcome>) -> nat
        decreases outcomes.len(),
    {
        if outcomes.len() == 0 {
            0
        } else {
            let before = self.trailer_requests(outcomes.drop_last());
            if self.run(outcomes).step is WriteTrailer {
                before + 1
            } else {
                before
            }
        }
    }

    /// The number of frames that the decoder has handed out in the run.
    pub open spec fn frames_received(self, outcomes: Seq<Outcome>) -> nat
        decreases outcomes.len(),
    {
        if outcomes.len() == 0 {
            0
        } else {
            let before = self.frames_received(outcomes.drop_last());
            if self.run(outcomes.drop_last()).step is ReceiveFrame && outcomes.last()
                == Outcome::Output {
                before + 1
            } else {
                before
            }
        }
    }

    /// The number of frames that the encoder has taken in the run.
    pub open spec fn frames_sent(self, outcomes: Seq<Outcome>) -> nat
        decreases outcomes.len(),
    {
        if outcomes.len() == 0 {
            0
        } else {
            let before = self.frames_sent(outcomes.drop_last());
            if self.run(outcomes.drop_last()).step is SendFrame && outcomes.last() == Outcome::Done {
                before + 1
            } else {
                before
            }
        }
    }

    /// A frame is on its way from the decoder to the encoder.
    pub open spec fn frame_in_hand(self) -> bool {
        self.step is ScaleInset || self.step is UpscaleCanvas || self.step is ScaleRegion
            || self.step is SendFrame
    }

    /// The state at the beginning of a run: the first packet is to be read.
    pub fn start() -> (p: Pipeline)
        ensures
            p == Pipeline::initial(),
    {
        Pipeline { step: Step::ReadPacket, flushing: false }
    }

    /// Tells whether the run has ended.
    pub fn has_ended(&self) -> (ended: bool)
        ensures
            ended == self.step.is_terminal(),
    {
        match self.step {
            Step::Finished => true,
            Step::Failed(_) => true,
            _ => false,
        }
    }

    /// Takes note of how the due step went, and decides the next step.
    pub fn advance(self, outcome: Outcome) -> (p: Pipeline)
        ensures
            p == self.next(outcome),
    {
        let failed: Pipeline = match self.step.failure_of() {
            Some(error) => Pipeline { step: Step::Failed(error), flushing: self.flushing },
            None => self,
        };
        match self.step {
            Step::Finished => self,
            Step::Failed(_) => self,
            Step::ReadPacket => match outcome {
                Outcome::VideoPacket => Pipeline { step: Step::SendPacket, flushing: self.flushing },
                Outcome::OtherPacket => Pipeline { step: Step::ReadPacket, flushing: self.flushing },
                Outcome::EndOfInput => Pipeline {
                    step: Step::SendEndOfStream,
                    flushing: self.flushing,
                },
                _ => failed,
            },
            Step::SendPacket => match outcome {
                Outcome::Done => Pipeline { step: Step::ReceiveFrame, flushing: self.flushing },
                _ => failed,
            },
            Step::ReceiveFrame => match outcome {
                Outcome::Output => Pipeline { step: Step::ScaleInset, flushing: self.flushing },
                Outcome::TryAgain => Pipeline { step: Step::ReadPacket, flushing: self.flushing },
                _ => failed,
            },
            Step::ScaleInset => match outcome {
                Outcome::Done => Pipeline { step: Step::UpscaleCanvas, flushing: self.flushing },
                _ => failed,
            },
            Step::UpscaleCanvas => match outcome {
                Outcome::Done => Pipeline { step: Step::ScaleRegion, flushing: self.flushing },
                _ => failed,
            },
            Step::ScaleRegion => match outcome {
                Outcome::Done => Pipeline { step: Step::SendFrame, flushing: self.flushing },
                _ => failed,
            },
            Step::SendFrame => match outcome {
                Outcome::Done => Pipeline { step: Step::ReceivePacket, flushing: self.flushing },
                _ => failed,
            },
            Step::ReceivePacket => match outcome {
                Outcome::Output => Pipeline { step: Step::WritePacket, flushing: self.flushing },
                Outcome::TryAgain => if self.flushing {
                    Pipeline { step: Step::WriteTrailer, flushing: self.flushing }
                } else {
                    Pipeline { step: Step::ReceiveFrame, flushing: self.flushing }
                },
                Outcome::EndOfStream => if self.flushing {
                    Pipeline { step: Step::WriteTrailer, flushing: self.flushing }
                } else {
                    failed
                },
                _ => failed,
            },
            Step::WritePacket => match outcome {
                Outcome::Done => Pipeline { step: Step::ReceivePacket, flushing: self.flushing },
                _ => failed,
            },
            Step::SendEndOfStream => match outcome {
                Outcome::Done => Pipeline { step: Step::ReceivePacket, flushing: true },
                _ => failed,
            },
            Step::WriteTrailer => match outcome {
                Outcome::Done => Pipeline { step: Step::Finished, flushing: self.flushing },
                _ => failed,
            },
        }
    }
}

/// A codec that asks for more input never ends the run with an error: the
/// decoder's request leads back to reading, the encoder's to the decoder,
/// or to the trailer once the encoder has been flushed.
pub proof fn lemma_try_again_is_no_error(p: Pipeline)
    requires
        p.step is ReceiveFrame || p.step is ReceivePacket,
    ensures
        !(p.next(Outcome::TryAgain).step is Failed),
        p.step is ReceiveFrame ==> p.next(Outcome::TryAgain).step is ReadPacket,
        p.step is ReceivePacket && !p.flushing ==> p.next(Outcome::TryAgain).step is ReceiveFrame,
        p.step is ReceivePacket && p.flushing ==> p.next(Outcome::TryAgain).step is WriteTrailer,
{
}

/// A decoded frame goes straight to the encoder: the three resampling
/// stages follow each other and lead to the encoder, so that no other
/// packet is read and no other frame is received before this one is sent.
pub proof fn lemma_frame_goes_straight_to_the_encoder(p: Pipeline)
    requires
        p.step is ReceiveFrame,
    ensures
        p.next(Outcome::Output).step is ScaleInset,
        p.next(Outcome::Output).next(Outcome::Done).step is UpscaleCanvas,
        p.next(Outcome::Output).next(Outcome::Done).next(Outcome::Done).step is ScaleRegion,
        p.next(Outcome::Output).next(Outcome::Done).next(Outcome::Done).next(Outcome::Done).step is SendFrame,
        p.next(Outcome::Output).next(Outcome::Done).next(Outcome::Done).next(Outcome::Done).next(
            Outcome::Done,
        ).step is ReceivePacket,
        forall|outcome: Outcome|
            outcome != Outcome::Done ==> {
                &&& (#[trigger] p.at(Step::ScaleInset).next(outcome)).step is Failed
                &&& p.at(Step::UpscaleCanvas).next(outcome).step is Failed
                &&& p.at(Step::ScaleRegion).next(outcome).step is Failed
                &&& p.at(Step::SendFrame).next(outcome).step is Failed
            },
{
}

/// Frames reach the encoder one at a time and in the order in which the
/// decoder hands them out: at every point of a run from the beginning
/// the encoder has taken every frame that the decoder has handed out,
/// but for the one frame that is on its way between them.
pub proof fn lemma_frames_are_sent_in_turn(outcomes: Seq<Outcome>)
    ensures
        Pipeline::initial().frames_sent(outcomes) <= Pipeline::initial().frames_received(outcomes)
            <= Pipeline::initial().frames_sent(outcomes) + 1,
        Pipeline::initial().run(outcomes).frame_in_hand() ==> Pipeline::initial().frames_received(
            outcomes,
        ) == Pipeline::initial().frames_sent(outcomes) + 1,
        !Pipeline::initial().run(outcomes).frame_in_hand() && !(Pipeline::initial().run(
            outcomes,
        ).step is Failed) ==> Pipeline::initial().frames_received(outcomes)
            == Pipeline::initial().frames_sent(outcomes),
    decreases outcomes.len(),
{
    if outcomes.len() > 0 {
        lemma_frames_are_sent_in_turn(outcomes.drop_last());
    }
}

/// A failure of any step ends the run, with the error of that step, and a
/// run that has ended does not go on.
pub proof fn lemma_failure_ends_the_run(p: Pipeline, outcome: Outcome)
    ensures
        !p.step.is_terminal() ==> p.step.failure() is Some && p.next(Outcome::Failure).step
            == Step::Failed(p.step.failure()->Some_0),
        p.step.is_terminal() ==> p.next(outcome) == p,
{
}

/// A run that has ended stays where it is, whatever is reported.
pub proof fn lemma_ended_run_stays(p: Pipeline, outcomes: Seq<Outcome>)
    requires
        p.step.is_terminal(),
    ensures
        p.run(outcomes) == p,
    decreases outcomes.len(),
{
    if outcomes.len() > 0 {
        lemma_ended_run_stays(p, outcomes.drop_last());
    }
}

/// In every run from the beginning the trailer is asked for at most once,
/// and only after the encoder was flushed; a run that has finished has
/// asked for it exactly once.
pub proof fn lemma_trailer_is_written_once(outcomes: Seq<Outcome>)
    ensures
        Pipeline::initial().trailer_requests(outcomes) <= 1,
        Pipeline::initial().run(outcomes).step is Finished ==> Pipeline::initial().trailer_requests(
            outcomes,
        ) == 1,
        Pipeline::initial().run(outcomes).step is WriteTrailer ==> Pipeline::initial().run(
            outcomes,
        ).flushing,
        Pipeline::initial().trailer_requests(outcomes) == 0 ==> !(Pipeline::initial().run(
            outcomes,
        ).step is WriteTrailer) && !(Pipeline::initial().run(outcomes).step is Finished),
        Pipeline::initial().trailer_requests(outcomes) == 1 ==> Pipeline::initial().run(
            outcomes,
        ).step is WriteTrailer || Pipeline::initial().run(outcomes).step.is_terminal(),
    decreases outcomes.len(),
{
    if outcomes.len() > 0 {
        lemma_trailer_is_written_once(outcomes.drop_last());
    }
}

} // verus!
