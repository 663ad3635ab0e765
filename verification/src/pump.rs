//! The playback pump: frames from a decoder into an output stream that runs.
//!
//! The pump decides; it touches neither the decoder nor the device. The
//! caller performs each [`PumpAction`] and reports what happened as a
//! [`PumpEvent`]. For each frame the pump asks for the stream's free space
//! until there is room for the whole frame, hands out the frame as one
//! interleaved buffer, and after the write asks for the next decode result.

use vstd::prelude::*;
use crate::error::PlaybackError;
use crate::frame::{DecodeResult, Frame};
use crate::interleave::interleave;
use crate::negotiate::StreamConfig;
use crate::source::{FrameSource, Intake, SourceView};

verus! {

/// What the output stream says of its free space.
#[derive(Clone, Copy, Debug, PartialEq, Eq)]
pub enum Availability {
    /// Room for this many frames.
    Frames(i64),
    /// No room.
    NoFrames,
    /// The stream has overflowed.
    Overflow,
    /// Any other status.
    Other,
}

impl Availability {
    /// Whether the stream has room for `needed` frames.
    pub open spec fn suffices(self, needed: nat) -> bool {
        self matches Availability::Frames(free) && free >= needed
    }
}

/// What happened when the last action was performed.
#[derive(Debug, PartialEq, Eq)]
pub enum PumpEvent {
    /// The stream answered a request for its free space.
    Available(Availability),
    /// The buffer was written.
    Written,
    /// The decoder made its next step: this is its result, or `None` at the
    /// end of its input.
    Decoded(Option<DecodeResult>),
    /// The output stream failed.
    Failed,
}

impl PumpEvent {
    /// Whether the event is a report of free space that leaves no room for
    /// `needed` frames.
    pub open spec fn falls_short_of(self, needed: nat) -> bool {
        match self {
            PumpEvent::Available(free) => !free.suffices(needed),
            _ => false,
        }
    }
}

/// What is to be done next.
#[derive(Clone, Debug, PartialEq, Eq)]
pub enum PumpAction {
    /// Ask the stream how many frames it has room for.
    Poll,
    /// Write `frames` frames: `samples` holds them, interleaved.
    Write { frames: u32, samples: Vec<i32> },
    /// Let the decoder make its next step.
    Decode,
    /// The stream has ended: stop the output stream, playback is over.
    Stop,
    /// Playback has failed with this error: close the stream.
    Abort(PlaybackError),
}

/// The content of a [`PumpAction`].
pub enum ActionView {
    Poll,
    Write { frames: nat, samples: Seq<i32> },
    Decode,
    Stop,
    Abort(PlaybackError),
}

impl View for PumpAction {
    type V = ActionView;

    open spec fn view(&self) -> ActionView {
        match self {
            PumpAction::Poll => ActionView::Poll,
            PumpAction::Write { frames, samples } => ActionView::Write {
                frames: *frames as nat,
                samples: samples@,
            },
            PumpAction::Decode => ActionView::Decode,
            PumpAction::Stop => ActionView::Stop,
            PumpAction::Abort(error) => ActionView::Abort(*error),
        }
    }
}

/// What the pump waits for.
#[derive(Clone, Debug, PartialEq, Eq)]
pub enum PumpState {
    /// The stream has been asked for its free space; this frame is to be
    /// written next.
    AwaitingCapacity(Frame),
    /// A buffer has been handed out for writing.
    AwaitingWrite,
    /// The decoder has been asked for its next result.
    AwaitingDecode,
    /// Playback is over: cleanly (`None`) or with an error.
    Finished(Option<PlaybackError>),
}

/// What a [`PlaybackPump`] holds.
pub struct PumpView {
    pub source: SourceView,
    pub config: StreamConfig,
    pub state: PumpState,
}

impl PumpView {
    /// The last action of a pump that has finished with `outcome`.
    pub open spec fn closing(outcome: Option<PlaybackError>) -> ActionView {
        match outcome {
            None => ActionView::Stop,
            Some(error) => ActionView::Abort(error),
        }
    }

    /// What the source's answer leads to on a stream of configuration
    /// `config`: a frame that the stream admits is polled for, a frame that
    /// it does not admit is a contract violation, the end of the stream
    /// stops the stream, and an error aborts.
    pub open spec fn on_signal(config: StreamConfig, signal: Result<Option<Frame>, PlaybackError>) -> (
        PumpState,
        ActionView,
    ) {
        match signal {
            Ok(Some(frame)) => if config.admits(frame@) {
                (PumpState::AwaitingCapacity(frame), ActionView::Poll)
            } else {
                (
                    PumpState::Finished(Some(PlaybackError::ContractViolation)),
                    ActionView::Abort(PlaybackError::ContractViolation),
                )
            },
            Ok(None) => (PumpState::Finished(None), ActionView::Stop),
            Err(error) => (PumpState::Finished(Some(error)), ActionView::Abort(error)),
        }
    }

    /// What the source's intake of a decode result leads to: another decode
    /// step where the result was discarded, and otherwise what the source's
    /// answer leads to.
    pub open spec fn on_intake(config: StreamConfig, intake: Intake) -> (PumpState, ActionView) {
        match intake {
            Intake::Discarded => (PumpState::AwaitingDecode, ActionView::Decode),
            Intake::Answer(signal) => PumpView::on_signal(config, signal),
        }
    }

    /// The pump at the start of playback, with the action that goes with it.
    pub open spec fn initial(source: SourceView, config: StreamConfig, first: Frame) -> (
        PumpView,
        ActionView,
    ) {
        let (state, action) = PumpView::on_signal(config, Ok(Some(first)));
        (PumpView { source, config, state }, action)
    }

    /// The pump that has failed on the device, or was told what it had not
    /// asked for.
    pub open spec fn broken(self) -> (PumpView, ActionView) {
        (
            PumpView { state: PumpState::Finished(Some(PlaybackError::DeviceError)), ..self },
            ActionView::Abort(PlaybackError::DeviceError),
        )
    }

    /// The pump after `event`, and what is to be done then.
    ///
    /// - Waiting for capacity: a report of room for the whole current frame
    ///   leads to the write of exactly that frame; any other report leads
    ///   to another poll and changes nothing.
    /// - Waiting for a write: its completion makes the pump ask for the
    ///   next decode result.
    /// - Waiting for a decode result: the source takes it, and the pump
    ///   goes by what the source makes of it, see [`PumpView::on_intake`].
    /// - An event that does not answer the last action, and a failure,
    ///   end playback with `DeviceError`.
    /// - A finished pump stays as it is and repeats its last action.
    pub open spec fn step(self, event: PumpEvent) -> (PumpView, ActionView) {
        match self.state {
            PumpState::Finished(outcome) => (self, PumpView::closing(outcome)),
            PumpState::AwaitingCapacity(frame) => match event {
                PumpEvent::Available(free) => if free.suffices(frame@.samples_per_channel()) {
                    (
                        PumpView { state: PumpState::AwaitingWrite, ..self },
                        ActionView::Write {
                            frames: frame@.samples_per_channel(),
                            samples: frame@.interleaved(),
                        },
                    )
                } else {
                    (self, ActionView::Poll)
                },
                _ => self.broken(),
            },
            PumpState::AwaitingWrite => match event {
                PumpEvent::Written => (
                    PumpView { state: PumpState::AwaitingDecode, ..self },
                    ActionView::Decode,
                ),
                _ => self.broken(),
            },
            PumpState::AwaitingDecode => match event {
                PumpEvent::Decoded(item) => {
                    let (state, action) = PumpView::on_intake(self.config, self.source.accept(item).1);
                    (PumpView { source: self.source.accept(item).0, config: self.config, state }, action)
                },
                _ => self.broken(),
            },
        }
    }

    /// The pump after all of `events`, one after the other.
    pub open spec fn run(self, events: Seq<PumpEvent>) -> PumpView
        decreases events.len(),
    {
        if events.len() == 0 {
            self
        } else {
            self.step(events[0]).0.run(events.skip(1))
        }
    }

    /// The actions that the pump answers `events` with, one for each event.
    pub open spec fn actions(self, events: Seq<PumpEvent>) -> Seq<ActionView>
        decreases events.len(),
    {
        if events.len() == 0 {
            Seq::empty()
        } else {
            seq![self.step(events[0]).1] + self.step(events[0]).0.actions(events.skip(1))
        }
    }
}

/// Busy polling never runs ahead of the device: while no report says that
/// there is room for the whole current frame, every answer of the pump is
/// another poll. Nothing is written, nothing is taken from the source, and
/// the pump is left as it was, however long this goes on.
pub proof fn law_insufficient_capacity_keeps_polling(
    pump: PumpView,
    frame: Frame,
    events: Seq<PumpEvent>,
)
    requires
        pump.state == PumpState::AwaitingCapacity(frame),
        forall|i: int|
            0 <= i < events.len() ==> (#[trigger] events[i]).falls_short_of(
                frame@.samples_per_channel(),
            ),
    ensures
        pump.run(events) == pump,
        pump.actions(events).len() == events.len(),
        forall|i: int| 0 <= i < events.len() ==> (#[trigger] pump.actions(events)[i]) == ActionView::Poll,
    decreases events.len(),
{
    if events.len() > 0 {
        let rest = events.skip(1);
        assert forall|i: int| 0 <= i < rest.len() implies (#[trigger] rest[i]).falls_short_of(
            frame@.samples_per_channel(),
        ) by {
            assert(rest[i] == events[i + 1]);
        }
        law_insufficient_capacity_keeps_polling(pump, frame, rest);
    }
}

/// A finished pump is final: whatever is reported to it, it stays as it is,
/// takes nothing from the source, and repeats its last action. In
/// particular it never asks for a write.
pub proof fn law_finished_pump_is_final(pump: PumpView, events: Seq<PumpEvent>)
    requires
        pump.state is Finished,
    ensures
        pump.run(events) == pump,
        pump.actions(events).len() == events.len(),
        forall|i: int|
            0 <= i < events.len() ==> (#[trigger] pump.actions(events)[i]) == PumpView::closing(
                pump.state->Finished_0,
            ),
    decreases events.len(),
{
    if events.len() > 0 {
        law_finished_pump_is_final(pump, events.skip(1));
    }
}

/// A decode error after a valid frame ends playback: when the pump waits
/// for a decode result while its source is playing and the result is an
/// error, the pump aborts with `DecodeFailure`. Whatever is reported
/// afterwards, it asks for no further decode step and for no write.
pub proof fn law_decode_error_ends_playback(
    pump: PumpView,
    detail: String,
    events: Seq<PumpEvent>,
)
    requires
        pump.state is AwaitingDecode,
        pump.source.phase is Playing,
    ensures
        pump.step(PumpEvent::Decoded(Some(DecodeResult::DecodeError(detail)))).1 == ActionView::Abort(
            PlaybackError::DecodeFailure,
        ),
        pump.step(PumpEvent::Decoded(Some(DecodeResult::DecodeError(detail)))).0.state
            == PumpState::Finished(Some(PlaybackError::DecodeFailure)),
        pump.step(PumpEvent::Decoded(Some(DecodeResult::DecodeError(detail)))).0.source.failure
            == Some(detail@),
        pump.step(PumpEvent::Decoded(Some(DecodeResult::DecodeError(detail)))).0.run(events)
            == pump.step(PumpEvent::Decoded(Some(DecodeResult::DecodeError(detail)))).0,
        forall|i: int|
            0 <= i < events.len() ==> (#[trigger] pump.step(
                PumpEvent::Decoded(Some(DecodeResult::DecodeError(detail))),
            ).0.actions(events)[i]) == ActionView::Abort(PlaybackError::DecodeFailure),
{
    law_finished_pump_is_final(
        pump.step(PumpEvent::Decoded(Some(DecodeResult::DecodeError(detail)))).0,
        events,
    );
}

/// A frame that disagrees with the stream's configuration ends playback
/// before any of it is written: when the pump waits for a decode result
/// while its source is playing and the result is a frame of another sample
/// rate or channel count, the pump aborts with `ContractViolation`, and no
/// later answer asks for a write.
pub proof fn law_mismatched_frame_ends_playback(
    pump: PumpView,
    next: Frame,
    events: Seq<PumpEvent>,
)
    requires
        pump.state is AwaitingDecode,
        pump.source.phase is Playing,
        !pump.config.admits(next@),
    ensures
        pump.step(PumpEvent::Decoded(Some(DecodeResult::ValidFrame(next)))).1 == ActionView::Abort(
            PlaybackError::ContractViolation,
        ),
        pump.step(PumpEvent::Decoded(Some(DecodeResult::ValidFrame(next)))).0.state
            == PumpState::Finished(Some(PlaybackError::ContractViolation)),
        forall|i: int|
            0 <= i < events.len() ==> (#[trigger] pump.step(
                PumpEvent::Decoded(Some(DecodeResult::ValidFrame(next))),
            ).0.actions(events)[i]) == ActionView::Abort(PlaybackError::ContractViolation),
{
    law_finished_pump_is_final(
        pump.step(PumpEvent::Decoded(Some(DecodeResult::ValidFrame(next)))).0,
        events,
    );
}

/// What is reported while `frames` are played by a decoder that gives
/// these frames and then ends, on a device that always has room: for each
/// frame that there is room for exactly that frame, that it has been
/// written, and what the decoder gives next.
pub open spec fn willing_playback(frames: Seq<Frame>) -> Seq<PumpEvent>
    decreases frames.len(),
{
    if frames.len() == 0 {
        Seq::empty()
    } else {
        seq![
            PumpEvent::Available(Availability::Frames(frames[0]@.samples_per_channel() as i64)),
            PumpEvent::Written,
            PumpEvent::Decoded(
                if frames.len() == 1 {
                    None
                } else {
                    Some(DecodeResult::ValidFrame(frames[1]))
                },
            ),
        ] + willing_playback(frames.skip(1))
    }
}

/// The actions that play `frames` from the first write on: each frame is
/// written once and whole, every write is followed by a decode step, and
/// that by a poll for the next frame or, after the last, by a stop.
pub open spec fn whole_playback(frames: Seq<Frame>) -> Seq<ActionView>
    decreases frames.len(),
{
    if frames.len() == 0 {
        Seq::empty()
    } else {
        seq![
            ActionView::Write {
                frames: frames[0]@.samples_per_channel(),
                samples: frames[0]@.interleaved(),
            },
            ActionView::Decode,
            if frames.len() == 1 {
                ActionView::Stop
            } else {
                ActionView::Poll
            },
        ] + whole_playback(frames.skip(1))
    }
}

/// Playback writes every frame exactly once, whole and in order, and then
/// stops: a pump that is polling for the first of `frames`, whose source is
/// playing and whose stream admits them all, answers a decoder that gives
/// the other frames and then ends, and a device that always has room, with
/// one write per frame, each of that frame's interleaved samples, and with
/// a stop after the last. It ends finished without an error.
pub proof fn law_playback_writes_each_frame_once(pump: PumpView, frames: Seq<Frame>)
    requires
        frames.len() > 0,
        pump.state == PumpState::AwaitingCapacity(frames[0]),
        pump.source.phase is Playing,
        forall|i: int| 0 <= i < frames.len() ==> (#[trigger] frames[i])@.valid(),
        forall|i: int| 0 <= i < frames.len() ==> pump.config.admits((#[trigger] frames[i])@),
    ensures
        pump.actions(willing_playback(frames)) == whole_playback(frames),
        pump.run(willing_playback(frames)).state == PumpState::Finished(None),
    decreases frames.len(),
{
    let events = willing_playback(frames);
    let rest = frames.skip(1);
    let decoded = pump.step(events[0]).0.step(events[1]).0.step(events[2]).0;
    lemma_three_steps(pump, events);
    assert(events.skip(3) =~= willing_playback(rest));
    if frames.len() == 1 {
        assert(whole_playback(rest).len() == 0);
    } else {
        assert forall|i: int| 0 <= i < rest.len() implies (#[trigger] rest[i])@.valid()
            && pump.config.admits(rest[i]@) by {
            assert(rest[i] == frames[i + 1]);
        }
        law_playback_writes_each_frame_once(decoded, rest);
    }
}

/// Three events are taken one after the other.
proof fn lemma_three_steps(pump: PumpView, events: Seq<PumpEvent>)
    requires
        events.len() >= 3,
    ensures
        pump.run(events) == pump.step(events[0]).0.step(events[1]).0.step(events[2]).0.run(
            events.skip(3),
        ),
        pump.actions(events) == seq![
            pump.step(events[0]).1,
            pump.step(events[0]).0.step(events[1]).1,
            pump.step(events[0]).0.step(events[1]).0.step(events[2]).1,
        ] + pump.step(events[0]).0.step(events[1]).0.step(events[2]).0.actions(events.skip(3)),
{
    let first = pump.step(events[0]).0;
    let second = first.step(events[1]).0;
    let third = second.step(events[2]).0;
    let tail = events.skip(1);
    let end = tail.skip(1);
    assert(end.skip(1) =~= events.skip(3));
    assert(first.run(tail) == second.run(end));
    assert(first.actions(tail) == seq![first.step(events[1]).1] + second.actions(end));
}

/// Drives the frames of a decoder into an output stream, one decision at a
/// time.
pub struct PlaybackPump {
    source: FrameSource,
    config: StreamConfig,
    state: PumpState,
}

impl View for PlaybackPump {
    type V = PumpView;

    closed spec fn view(&self) -> PumpView {
        PumpView { source: self.source@, config: self.config, state: self.state }
    }
}

/// Turns the source's answer into the pump's next state and action.
fn on_signal(config: &StreamConfig, signal: Result<Option<Frame>, PlaybackError>) -> (next: (
    PumpState,
    PumpAction,
))
    ensures
        next.0 == PumpView::on_signal(*config, signal).0,
        next.1@ == PumpView::on_signal(*config, signal).1,
{
    match signal {
        Ok(Some(frame)) => {
            if config.accepts(&frame) {
                (PumpState::AwaitingCapacity(frame), PumpAction::Poll)
            } else {
                (
                    PumpState::Finished(Some(PlaybackError::ContractViolation)),
                    PumpAction::Abort(PlaybackError::ContractViolation),
                )
            }
        },
        Ok(None) => (PumpState::Finished(None), PumpAction::Stop),
        Err(error) => (PumpState::Finished(Some(error)), PumpAction::Abort(error)),
    }
}

impl PlaybackPump {
    /// Begins playback on a stream of configuration `config` with the frame
    /// `first`, which `source` has handed out. The first action is a poll,
    /// unless `first` disagrees with `config`: then playback is over with
    /// `ContractViolation` before anything is written.
    pub fn start(source: FrameSource, config: StreamConfig, first: Frame) -> (begun: (
        PlaybackPump,
        PumpAction,
    ))
        ensures
            begun.0@ == PumpView::initial(source@, config, first).0,
            begun.1@ == PumpView::initial(source@, config, first).1,
    {
        let (state, action) = on_signal(&config, Ok(Some(first)));
        (PlaybackPump { source, config, state }, action)
    }

    /// What the pump waits for.
    pub fn state(&self) -> (state: &PumpState)
        ensures
            *state == self@.state,
    {
        &self.state
    }

    /// The configuration of the stream that the pump feeds.
    pub fn config(&self) -> (config: StreamConfig)
        ensures
            config == self@.config,
    {
        self.config
    }

    /// The source that takes the decode results.
    pub fn source(&self) -> (source: &FrameSource)
        ensures
            source@ == self@.source,
    {
        &self.source
    }

    /// Whether playback is over.
    pub fn is_finished(&self) -> (finished: bool)
        ensures
            finished == (self@.state is Finished),
    {
        match &self.state {
            PumpState::Finished(_) => true,
            _ => false,
        }
    }

    /// Ends playback with `DeviceError`.
    fn fail(&mut self) -> (action: PumpAction)
        ensures
            final(self)@ == old(self)@.broken().0,
            action@ == old(self)@.broken().1,
    {
        self.state = PumpState::Finished(Some(PlaybackError::DeviceError));
        PumpAction::Abort(PlaybackError::DeviceError)
    }

    /// Takes what happened and says what to do next; see
    /// [`PumpView::step`].
    pub fn step(&mut self, event: PumpEvent) -> (action: PumpAction)
        ensures
            final(self)@ == old(self)@.step(event).0,
            action@ == old(self)@.step(event).1,
    {
        match &self.state {
            PumpState::Finished(None) => PumpAction::Stop,
            PumpState::Finished(Some(error)) => PumpAction::Abort(*error),
            PumpState::AwaitingCapacity(frame) => {
                proof {
                    use_type_invariant(frame);
                }
                let needed = frame.samples_per_channel();
                match event {
                    PumpEvent::Available(Availability::Frames(free)) => {
                        if free >= 0 && free as u64 >= needed as u64 {
                            let samples = interleave(frame);
                            self.state = PumpState::AwaitingWrite;
                            PumpAction::Write { frames: needed as u32, samples }
                        } else {
                            PumpAction::Poll
                        }
                    },
                    PumpEvent::Available(_) => PumpAction::Poll,
                    _ => self.fail(),
                }
            },
            PumpState::AwaitingWrite => {
                match event {
                    PumpEvent::Written => {
                        self.state = PumpState::AwaitingDecode;
                        PumpAction::Decode
                    },
                    _ => self.fail(),
                }
            },
            PumpState::AwaitingDecode => {
                match event {
                    PumpEvent::Decoded(item) => {
                        match self.source.accept(item) {
                            Intake::Discarded => PumpAction::Decode,
                            Intake::Answer(signal) => {
                                let (state, action) = on_signal(&self.config, signal);
                                self.state = state;
                                action
                            },
                        }
                    },
                    _ => self.fail(),
                }
            },
        }
    }
}

} // verus!
