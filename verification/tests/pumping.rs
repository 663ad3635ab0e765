use playback_pump::error::PlaybackError;
use playback_pump::frame::{DecodeResult, Frame};
use playback_pump::negotiate::StreamConfig;
use playback_pump::pump::{Availability, PlaybackPump, PumpAction, PumpEvent, PumpState};
use playback_pump::source::{FrameSource, SourcePhase};
use std::collections::VecDeque;

fn ramp(rate: u32, channels: usize, length: usize, base: i32) -> Frame {
    let mut blocks = Vec::new();
    for j in 0..channels {
        let mut block = Vec::new();
        for i in 0..length {
            block.push(base + (j * 10_000 + i) as i32);
        }
        blocks.push(block);
    }
    Frame::new(rate, blocks).unwrap()
}

fn interleaved(frame: &Frame) -> Vec<i32> {
    let blocks = frame.samples();
    let mut buffer = Vec::new();
    for i in 0..frame.samples_per_channel() {
        for block in blocks {
            buffer.push(block[i]);
        }
    }
    buffer
}

/// A pump that has the first valid frame of `results`, and the results
/// that are left for the decoder to give.
fn begin(results: Vec<DecodeResult>) -> (PlaybackPump, PumpAction, VecDeque<DecodeResult>) {
    let mut results = VecDeque::from(results);
    let mut source = FrameSource::new();
    let first = source.next_valid_frame(&mut results).unwrap().unwrap();
    let config = StreamConfig::derive(&first, 0);
    let (pump, action) = PlaybackPump::start(source, config, first);
    (pump, action, results)
}

fn room(frames: i64) -> PumpEvent {
    PumpEvent::Available(Availability::Frames(frames))
}

fn frame(frame: Frame) -> PumpEvent {
    PumpEvent::Decoded(Some(DecodeResult::ValidFrame(frame)))
}

fn error(text: &str) -> PumpEvent {
    PumpEvent::Decoded(Some(DecodeResult::DecodeError(String::from(text))))
}

#[test]
fn two_frames_give_two_writes_and_a_clean_stop() {
    let f1 = ramp(44100, 2, 1152, 0);
    let f2 = ramp(44100, 2, 1152, 500_000);
    let (mut pump, mut action, mut results) =
        begin(vec![DecodeResult::ValidFrame(f1.clone()), DecodeResult::ValidFrame(f2.clone())]);
    let mut writes: Vec<(u32, Vec<i32>)> = Vec::new();
    let mut polls = 0;
    let mut decodes = 0;
    let mut steps = 0;
    loop {
        steps += 1;
        assert!(steps < 100);
        let event = match action {
            PumpAction::Poll => {
                polls += 1;
                room(1152)
            }
            PumpAction::Write { frames, samples } => {
                writes.push((frames, samples));
                PumpEvent::Written
            }
            PumpAction::Decode => {
                decodes += 1;
                PumpEvent::Decoded(results.pop_front())
            }
            PumpAction::Stop => break,
            PumpAction::Abort(error) => panic!("aborted with {:?}", error),
        };
        action = pump.step(event);
    }
    assert_eq!(polls, 2);
    assert_eq!(decodes, 2);
    assert_eq!(writes.len(), 2);
    assert_eq!(writes[0].0, 1152);
    assert_eq!(writes[0].1.len(), 1152 * 2);
    assert_eq!(writes[0].1, interleaved(&f1));
    assert_eq!(writes[1].0, 1152);
    assert_eq!(writes[1].1.len(), 1152 * 2);
    assert_eq!(writes[1].1, interleaved(&f2));
    assert!(pump.is_finished());
    assert_eq!(pump.state(), &PumpState::Finished(None));
    assert_eq!(pump.source().phase(), SourcePhase::Terminated(None));
    assert_eq!(pump.step(PumpEvent::Written), PumpAction::Stop);
    assert_eq!(pump.step(room(4096)), PumpAction::Stop);
    assert_eq!(pump.step(frame(f1)), PumpAction::Stop);
}

#[test]
fn later_frame_of_another_rate_ends_playback_before_its_write() {
    let (mut pump, action, _) = begin(vec![DecodeResult::ValidFrame(ramp(44100, 2, 1152, 0))]);
    assert_eq!(pump.config().sample_rate, 44100);
    assert_eq!(pump.config().channel_count, 2);
    assert_eq!(action, PumpAction::Poll);
    assert!(matches!(pump.step(room(1152)), PumpAction::Write { frames: 1152, .. }));
    assert_eq!(pump.step(PumpEvent::Written), PumpAction::Decode);
    assert_eq!(
        pump.step(frame(ramp(48000, 2, 1152, 0))),
        PumpAction::Abort(PlaybackError::ContractViolation)
    );
    assert_eq!(pump.state(), &PumpState::Finished(Some(PlaybackError::ContractViolation)));
    assert_eq!(pump.step(room(1152)), PumpAction::Abort(PlaybackError::ContractViolation));
    assert_eq!(pump.step(PumpEvent::Written), PumpAction::Abort(PlaybackError::ContractViolation));
    assert_eq!(
        pump.step(frame(ramp(44100, 2, 1152, 0))),
        PumpAction::Abort(PlaybackError::ContractViolation)
    );
}

#[test]
fn later_frame_of_another_channel_count_is_a_contract_violation() {
    let (mut pump, _, _) = begin(vec![DecodeResult::ValidFrame(ramp(44100, 2, 4, 0))]);
    assert!(matches!(pump.step(room(4)), PumpAction::Write { frames: 4, .. }));
    assert_eq!(pump.step(PumpEvent::Written), PumpAction::Decode);
    assert_eq!(
        pump.step(frame(ramp(44100, 1, 4, 0))),
        PumpAction::Abort(PlaybackError::ContractViolation)
    );
}

#[test]
fn first_frame_that_disagrees_with_the_config_is_refused_at_once() {
    let first = ramp(48000, 2, 4, 0);
    let config = StreamConfig::derive(&ramp(44100, 2, 4, 0), 0);
    let (mut pump, action) = PlaybackPump::start(FrameSource::new(), config, first);
    assert_eq!(action, PumpAction::Abort(PlaybackError::ContractViolation));
    assert!(pump.is_finished());
    assert_eq!(pump.step(room(4)), PumpAction::Abort(PlaybackError::ContractViolation));
}

#[test]
fn decode_error_after_a_frame_ends_playback_and_consumes_nothing_more() {
    let (mut pump, _, _) = begin(vec![
        DecodeResult::DecodeError(String::from("id3 tag")),
        DecodeResult::ValidFrame(ramp(44100, 2, 8, 0)),
    ]);
    assert!(matches!(pump.step(room(8)), PumpAction::Write { frames: 8, .. }));
    assert_eq!(pump.step(PumpEvent::Written), PumpAction::Decode);
    assert_eq!(pump.step(error("bad crc")), PumpAction::Abort(PlaybackError::DecodeFailure));
    assert_eq!(pump.state(), &PumpState::Finished(Some(PlaybackError::DecodeFailure)));
    assert_eq!(
        pump.source().phase(),
        SourcePhase::Terminated(Some(PlaybackError::DecodeFailure))
    );
    assert_eq!(pump.source().failure_detail(), Some(&String::from("bad crc")));
    for _ in 0..5 {
        assert_eq!(pump.step(PumpEvent::Written), PumpAction::Abort(PlaybackError::DecodeFailure));
        assert_eq!(pump.step(room(8)), PumpAction::Abort(PlaybackError::DecodeFailure));
        assert_eq!(
            pump.step(frame(ramp(44100, 2, 8, 100))),
            PumpAction::Abort(PlaybackError::DecodeFailure)
        );
    }
    assert_eq!(pump.source().failure_detail(), Some(&String::from("bad crc")));
}

#[test]
fn pump_keeps_polling_while_capacity_is_insufficient() {
    let first = ramp(44100, 2, 1152, 0);
    let (mut pump, action, _) = begin(vec![DecodeResult::ValidFrame(first.clone())]);
    assert_eq!(action, PumpAction::Poll);
    let reports = [
        Availability::Frames(0),
        Availability::Frames(1151),
        Availability::NoFrames,
        Availability::Overflow,
        Availability::Other,
        Availability::Frames(-1),
        Availability::Frames(i64::MIN),
    ];
    for round in 0..1000 {
        let report = reports[round % reports.len()];
        assert_eq!(pump.step(PumpEvent::Available(report)), PumpAction::Poll);
        assert_eq!(pump.state(), &PumpState::AwaitingCapacity(first.clone()));
    }
    assert_eq!(
        pump.step(room(1152)),
        PumpAction::Write { frames: 1152, samples: interleaved(&first) }
    );
}

#[test]
fn more_room_than_needed_still_writes_exactly_the_frame() {
    let first = ramp(44100, 2, 576, 3);
    let (mut pump, _, _) = begin(vec![DecodeResult::ValidFrame(first.clone())]);
    let action = pump.step(room(i64::MAX));
    assert_eq!(action, PumpAction::Write { frames: 576, samples: interleaved(&first) });
    assert_eq!(pump.state(), &PumpState::AwaitingWrite);
}

#[test]
fn frames_of_different_lengths_are_each_written_whole() {
    let f1 = ramp(44100, 2, 1152, 0);
    let f2 = ramp(44100, 2, 576, 7);
    let (mut pump, _, _) = begin(vec![DecodeResult::ValidFrame(f1.clone())]);
    assert_eq!(pump.config().frames_per_buffer, 1152);
    assert_eq!(pump.step(room(1152)), PumpAction::Write { frames: 1152, samples: interleaved(&f1) });
    assert_eq!(pump.step(PumpEvent::Written), PumpAction::Decode);
    assert_eq!(pump.state(), &PumpState::AwaitingDecode);
    assert_eq!(pump.step(frame(f2.clone())), PumpAction::Poll);
    assert_eq!(pump.step(room(575)), PumpAction::Poll);
    assert_eq!(pump.step(room(576)), PumpAction::Write { frames: 576, samples: interleaved(&f2) });
    assert_eq!(pump.step(PumpEvent::Written), PumpAction::Decode);
    assert_eq!(pump.step(PumpEvent::Decoded(None)), PumpAction::Stop);
}

#[test]
fn pump_with_a_source_that_warms_up_asks_for_more_results() {
    let first = ramp(44100, 2, 4, 0);
    let config = StreamConfig::derive(&first, 0);
    let (mut pump, _) = PlaybackPump::start(FrameSource::new(), config, first);
    assert!(matches!(pump.step(room(4)), PumpAction::Write { .. }));
    assert_eq!(pump.step(PumpEvent::Written), PumpAction::Decode);
    assert_eq!(pump.step(error("junk")), PumpAction::Decode);
    assert_eq!(pump.step(error("junk")), PumpAction::Decode);
    assert_eq!(pump.step(frame(ramp(44100, 2, 4, 9))), PumpAction::Poll);
    assert_eq!(pump.source().phase(), SourcePhase::Playing);
}

#[test]
fn device_failure_ends_playback() {
    let (mut polling, _, _) = begin(vec![DecodeResult::ValidFrame(ramp(44100, 2, 4, 0))]);
    assert_eq!(polling.step(PumpEvent::Failed), PumpAction::Abort(PlaybackError::DeviceError));
    assert_eq!(polling.state(), &PumpState::Finished(Some(PlaybackError::DeviceError)));

    let (mut writing, _, _) = begin(vec![DecodeResult::ValidFrame(ramp(44100, 2, 4, 0))]);
    assert!(matches!(writing.step(room(4)), PumpAction::Write { .. }));
    assert_eq!(writing.step(PumpEvent::Failed), PumpAction::Abort(PlaybackError::DeviceError));
    assert_eq!(writing.source().phase(), SourcePhase::Playing);
    assert_eq!(writing.step(PumpEvent::Written), PumpAction::Abort(PlaybackError::DeviceError));
}

#[test]
fn event_out_of_turn_is_a_device_error() {
    let (mut polling, _, _) = begin(vec![DecodeResult::ValidFrame(ramp(44100, 2, 4, 0))]);
    assert_eq!(polling.step(PumpEvent::Written), PumpAction::Abort(PlaybackError::DeviceError));

    let (mut writing, _, _) = begin(vec![DecodeResult::ValidFrame(ramp(44100, 2, 4, 0))]);
    assert!(matches!(writing.step(room(4)), PumpAction::Write { .. }));
    assert_eq!(writing.step(room(4)), PumpAction::Abort(PlaybackError::DeviceError));

    let (mut decoding, _, _) = begin(vec![DecodeResult::ValidFrame(ramp(44100, 2, 4, 0))]);
    assert!(matches!(decoding.step(room(4)), PumpAction::Write { .. }));
    assert_eq!(decoding.step(PumpEvent::Written), PumpAction::Decode);
    assert_eq!(decoding.step(PumpEvent::Written), PumpAction::Abort(PlaybackError::DeviceError));

    let (mut early, _, _) = begin(vec![DecodeResult::ValidFrame(ramp(44100, 2, 4, 0))]);
    assert_eq!(
        early.step(frame(ramp(44100, 2, 4, 0))),
        PumpAction::Abort(PlaybackError::DeviceError)
    );
}
