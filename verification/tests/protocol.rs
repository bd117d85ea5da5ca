use zoompan::error::{CodecStage, ResampleStage, TransformError};
use zoompan::pipeline::{Outcome, Pipeline, Step};

fn run(outcomes: &[Outcome]) -> Vec<Step> {
    let mut pipeline = Pipeline::start();
    let mut steps = vec![pipeline.step];
    for outcome in outcomes {
        pipeline = pipeline.advance(*outcome);
        steps.push(pipeline.step);
    }
    steps
}

#[test]
fn run_begins_by_reading() {
    let pipeline = Pipeline::start();
    assert_eq!(pipeline, Pipeline { step: Step::ReadPacket, flushing: false });
    assert!(!pipeline.has_ended());
}

#[test]
fn one_frame_travels_through_every_stage() {
    let steps = run(&[
        Outcome::VideoPacket, Outcome::Done, Outcome::Output, Outcome::Done, Outcome::Done, Outcome::Done, Outcome::Done, Outcome::Output, Outcome::Done, Outcome::TryAgain, Outcome::TryAgain,
        Outcome::EndOfInput, Outcome::Done, Outcome::Output, Outcome::Done, Outcome::EndOfStream, Outcome::Done,
    ]);
    assert_eq!(
        steps,
        vec![
            Step::ReadPacket,
            Step::SendPacket,
            Step::ReceiveFrame,
            Step::ScaleInset,
            Step::UpscaleCanvas,
            Step::ScaleRegion,
            Step::SendFrame,
            Step::ReceivePacket,
            Step::WritePacket,
            Step::ReceivePacket,
            Step::ReceiveFrame,
            Step::ReadPacket,
            Step::SendEndOfStream,
            Step::ReceivePacket,
            Step::WritePacket,
            Step::ReceivePacket,
            Step::WriteTrailer,
            Step::Finished,
        ]
    );
    assert_eq!(steps.iter().filter(|s| **s == Step::WriteTrailer).count(), 1);
}

#[test]
fn other_streams_are_skipped() {
    assert_eq!(
        run(&[Outcome::OtherPacket, Outcome::OtherPacket, Outcome::VideoPacket]),
        vec![Step::ReadPacket, Step::ReadPacket, Step::ReadPacket, Step::SendPacket]
    );
}

#[test]
fn try_again_is_not_an_error() {
    let decoder = Pipeline { step: Step::ReceiveFrame, flushing: false };
    assert_eq!(decoder.advance(Outcome::TryAgain).step, Step::ReadPacket);
    let encoder = Pipeline { step: Step::ReceivePacket, flushing: false };
    assert_eq!(encoder.advance(Outcome::TryAgain).step, Step::ReceiveFrame);
    let flushed = Pipeline { step: Step::ReceivePacket, flushing: true };
    assert_eq!(flushed.advance(Outcome::TryAgain), Pipeline { step: Step::WriteTrailer, flushing: true });
    assert_eq!(flushed.advance(Outcome::EndOfStream).step, Step::WriteTrailer);
}

#[test]
fn empty_input_still_writes_the_trailer() {
    assert_eq!(
        run(&[Outcome::EndOfInput, Outcome::Done, Outcome::TryAgain, Outcome::Done]),
        vec![
            Step::ReadPacket,
            Step::SendEndOfStream,
            Step::ReceivePacket,
            Step::WriteTrailer,
            Step::Finished,
        ]
    );
}

#[test]
fn every_failure_aborts_with_the_error_of_its_step() {
    let cases = [
        (Step::ReadPacket, TransformError::Codec(CodecStage::ReadPacket)),
        (Step::SendPacket, TransformError::Codec(CodecStage::SendPacket)),
        (Step::ReceiveFrame, TransformError::Codec(CodecStage::ReceiveFrame)),
        (Step::ScaleInset, TransformError::Resample(ResampleStage::Inset)),
        (Step::UpscaleCanvas, TransformError::Resample(ResampleStage::Upscale)),
        (Step::ScaleRegion, TransformError::Resample(ResampleStage::Zoom)),
        (Step::SendFrame, TransformError::Codec(CodecStage::SendFrame)),
        (Step::ReceivePacket, TransformError::Codec(CodecStage::ReceivePacket)),
        (Step::WritePacket, TransformError::Codec(CodecStage::WritePacket)),
        (Step::SendEndOfStream, TransformError::Codec(CodecStage::Flush)),
        (Step::WriteTrailer, TransformError::Codec(CodecStage::WriteTrailer)),
    ];
    for (step, error) in cases {
        for flushing in [false, true] {
            let pipeline = Pipeline { step, flushing };
            assert_eq!(step.failure_of(), Some(error));
            let failed = pipeline.advance(Outcome::Failure);
            assert_eq!(failed, Pipeline { step: Step::Failed(error), flushing });
            assert!(failed.has_ended());
        }
    }
}

#[test]
fn unexpected_outcomes_count_as_failures() {
    let pipeline = Pipeline { step: Step::SendPacket, flushing: false };
    assert_eq!(
        pipeline.advance(Outcome::TryAgain).step,
        Step::Failed(TransformError::Codec(CodecStage::SendPacket))
    );
    let pipeline = Pipeline { step: Step::ReceivePacket, flushing: false };
    assert_eq!(
        pipeline.advance(Outcome::EndOfStream).step,
        Step::Failed(TransformError::Codec(CodecStage::ReceivePacket))
    );
    let pipeline = Pipeline { step: Step::ReceiveFrame, flushing: false };
    assert_eq!(
        pipeline.advance(Outcome::EndOfStream).step,
        Step::Failed(TransformError::Codec(CodecStage::ReceiveFrame))
    );
    let pipeline = Pipeline { step: Step::ReadPacket, flushing: false };
    assert_eq!(
        pipeline.advance(Outcome::Done).step,
        Step::Failed(TransformError::Codec(CodecStage::ReadPacket))
    );
}

#[test]
fn ended_runs_stay_ended() {
    let all = [
        Outcome::Done,
        Outcome::VideoPacket,
        Outcome::OtherPacket,
        Outcome::EndOfInput,
        Outcome::Output,
        Outcome::TryAgain,
        Outcome::EndOfStream,
        Outcome::Failure,
    ];
    let finished = Pipeline { step: Step::Finished, flushing: true };
    let failed = Pipeline {
        step: Step::Failed(TransformError::Resample(ResampleStage::Zoom)),
        flushing: false,
    };
    assert!(finished.has_ended() && failed.has_ended());
    for outcome in all {
        assert_eq!(finished.advance(outcome), finished);
        assert_eq!(failed.advance(outcome), failed);
    }
    assert_eq!(failed.step.failure_of(), None);
    assert_eq!(finished.step.failure_of(), None);
}

#[test]
fn trailer_is_asked_for_at_most_once_on_every_short_run() {
    let all = [
        Outcome::Done,
        Outcome::VideoPacket,
        Outcome::EndOfInput,
        Outcome::Output,
        Outcome::TryAgain,
        Outcome::EndOfStream,
        Outcome::Failure,
    ];
    // every run of six outcomes
    let mut count = 0u32;
    for code in 0..7usize.pow(6) {
        let mut pipeline = Pipeline::start();
        let mut trailers = 0;
        let mut rest = code;
        for _ in 0..6 {
            pipeline = pipeline.advance(all[rest % 7]);
            rest /= 7;
            if pipeline.step == Step::WriteTrailer {
                trailers += 1;
                assert!(pipeline.flushing);
            }
        }
        assert!(trailers <= 1);
        if pipeline.step == Step::Finished {
            assert_eq!(trailers, 1);
            count += 1;
        }
    }
    assert!(count > 0);
}

#[test]
fn frames_reach_the_encoder_one_at_a_time() {
    let all = [
        Outcome::Done,
        Outcome::VideoPacket,
        Outcome::EndOfInput,
        Outcome::Output,
        Outcome::TryAgain,
        Outcome::Failure,
    ];
    // every run of eight outcomes
    for code in 0..6usize.pow(8) {
        let mut pipeline = Pipeline::start();
        let (mut received, mut sent) = (0u32, 0u32);
        let mut rest = code;
        for _ in 0..8 {
            let outcome = all[rest % 6];
            rest /= 6;
            if pipeline.step == Step::ReceiveFrame && outcome == Outcome::Output {
                received += 1;
            }
            if pipeline.step == Step::SendFrame && outcome == Outcome::Done {
                sent += 1;
            }
            pipeline = pipeline.advance(outcome);
            assert!(sent <= received && received <= sent + 1);
            let in_hand = matches!(
                pipeline.step,
                Step::ScaleInset | Step::UpscaleCanvas | Step::ScaleRegion | Step::SendFrame
            );
            if in_hand {
                assert_eq!(received, sent + 1);
            } else if !matches!(pipeline.step, Step::Failed(_)) {
                assert_eq!(received, sent);
            }
        }
    }
}
