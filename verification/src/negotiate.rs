//! Stream negotiation: from the first valid frame to a started output
//! stream.
//!
//! The negotiator decides what is asked of the output device and in which
//! order. The caller performs each [`NegotiationAction`] on the device and
//! reports the outcome as a [`DeviceReply`].

use vstd::prelude::*;
use crate::error::PlaybackError;
use crate::frame::{Frame, FrameView};

verus! {

/// Output buffers always hold the channels of one sample side by side.
pub const INTERLEAVED: bool = true;

/// The configuration of the output stream. It is derived once, from the
/// first valid frame and the device's latency, and holds for the whole
/// playback.
#[derive(Clone, Copy, Debug, PartialEq, Eq)]
pub struct StreamConfig {
    /// Samples per second and channel.
    pub sample_rate: u32,
    /// Number of channels.
    pub channel_count: i32,
    /// Number of frames that the stream's buffer is sized for.
    pub frames_per_buffer: u32,
    /// The device's default low output latency in seconds, as the bits of an
    /// IEEE 754 double.
    pub latency_bits: u64,
    /// Whether buffers are interleaved.
    pub interleaved: bool,
}

impl StreamConfig {
    /// The configuration for a stream that starts with `frame`.
    pub open spec fn of(frame: FrameView, latency_bits: u64) -> StreamConfig {
        StreamConfig {
            sample_rate: frame.sample_rate as u32,
            channel_count: frame.channel_count() as i32,
            frames_per_buffer: frame.samples_per_channel() as u32,
            latency_bits,
            interleaved: INTERLEAVED,
        }
    }

    /// Whether `frame` can be played on a stream of this configuration: it
    /// has the stream's sample rate and channel count.
    pub open spec fn admits(self, frame: FrameView) -> bool {
        frame.sample_rate == self.sample_rate && frame.channel_count() == self.channel_count
    }

    /// Derives the configuration from the first valid frame: its sample
    /// rate, its number of channels, and the length of its first channel as
    /// the buffer size.
    pub fn derive(frame: &Frame, latency_bits: u64) -> (config: StreamConfig)
        ensures
            config == StreamConfig::of(frame@, latency_bits),
            config.sample_rate == frame@.sample_rate,
            config.channel_count == frame@.channel_count(),
            config.frames_per_buffer == frame@.samples_per_channel(),
            config.latency_bits == latency_bits,
            config.interleaved,
            config.admits(frame@),
    {
        proof {
            use_type_invariant(frame);
        }
        StreamConfig {
            sample_rate: frame.sample_rate(),
            channel_count: frame.channel_count() as i32,
            frames_per_buffer: frame.samples_per_channel() as u32,
            latency_bits,
            interleaved: INTERLEAVED,
        }
    }

    /// Tests whether `frame` agrees with this configuration.
    pub fn accepts(&self, frame: &Frame) -> (agrees: bool)
        ensures
            agrees == self.admits(frame@),
    {
        proof {
            use_type_invariant(frame);
        }
        self.channel_count >= 0 && frame.sample_rate() == self.sample_rate && frame.channel_count()
            == self.channel_count as usize
    }
}

/// What the device answered to the last request.
#[derive(Clone, Copy, Debug, PartialEq, Eq)]
pub enum DeviceReply {
    /// There is a default output device, with this default low output
    /// latency (seconds, as the bits of a double).
    DefaultDevice { latency_bits: u64 },
    /// The device supports the format that was asked about.
    FormatSupported,
    /// The device rejects the format that was asked about.
    FormatRejected,
    /// The stream has been opened.
    StreamOpened,
    /// The stream has been started.
    StreamStarted,
    /// The request failed.
    Failed,
}

/// What is to be done next on the device.
#[derive(Clone, Copy, Debug, PartialEq, Eq)]
pub enum NegotiationAction {
    /// Look up the default output device and its default low output latency.
    QueryDefaultDevice,
    /// Ask whether the device supports this configuration.
    CheckFormat(StreamConfig),
    /// Open a blocking output stream with this configuration.
    OpenStream(StreamConfig),
    /// Start the stream that was opened.
    StartStream,
    /// The stream runs with this configuration; playback can begin.
    Proceed(StreamConfig),
    /// Give up with `error`. Where `release` is set a stream is open and has
    /// to be closed.
    Abort { error: PlaybackError, release: bool },
}

/// How far negotiation has come. The configuration in the first state
/// still lacks the latency.
#[derive(Clone, Copy, Debug, PartialEq, Eq)]
pub enum NegotiationState {
    /// The default device has been asked for.
    QueryingDevice(StreamConfig),
    /// The device has been asked whether it supports the configuration.
    CheckingFormat(StreamConfig),
    /// The stream is being opened.
    Opening(StreamConfig),
    /// The stream is open and is being started.
    Starting(StreamConfig),
    /// The stream runs.
    Ready(StreamConfig),
    /// Negotiation failed.
    Failed(PlaybackError),
}

impl NegotiationState {
    /// The state in which negotiation for a stream of `frame`s begins.
    pub open spec fn initial(frame: FrameView) -> NegotiationState {
        NegotiationState::QueryingDevice(StreamConfig::of(frame, 0))
    }

    /// Whether negotiation has come to an end.
    pub open spec fn is_final(self) -> bool {
        self is Ready || self is Failed
    }

    /// Whether a stream may be open when `reply` arrives in this state.
    pub open spec fn holds_stream(self, reply: DeviceReply) -> bool {
        self is Starting || reply is StreamOpened || reply is StreamStarted
    }

    /// The state after `reply`, and what is to be done then.
    ///
    /// Each state waits for one kind of reply. The reply that it waits for
    /// leads on; a rejected format ends negotiation with
    /// `UnsupportedFormat`; every other reply ends it with `DeviceError`.
    /// A final state stays as it is.
    pub open spec fn step(self, reply: DeviceReply) -> (NegotiationState, NegotiationAction) {
        match (self, reply) {
            (NegotiationState::Ready(config), _) => (self, NegotiationAction::Proceed(config)),
            (NegotiationState::Failed(error), _) => (
                self,
                NegotiationAction::Abort { error, release: false },
            ),
            (NegotiationState::QueryingDevice(draft), DeviceReply::DefaultDevice { latency_bits }) => {
                let config = StreamConfig { latency_bits, ..draft };
                (NegotiationState::CheckingFormat(config), NegotiationAction::CheckFormat(config))
            },
            (NegotiationState::CheckingFormat(config), DeviceReply::FormatSupported) => (
                NegotiationState::Opening(config),
                NegotiationAction::OpenStream(config),
            ),
            (NegotiationState::CheckingFormat(_), DeviceReply::FormatRejected) => (
                NegotiationState::Failed(PlaybackError::UnsupportedFormat),
                NegotiationAction::Abort { error: PlaybackError::UnsupportedFormat, release: false },
            ),
            (NegotiationState::Opening(config), DeviceReply::StreamOpened) => (
                NegotiationState::Starting(config),
                NegotiationAction::StartStream,
            ),
            (NegotiationState::Starting(config), DeviceReply::StreamStarted) => (
                NegotiationState::Ready(config),
                NegotiationAction::Proceed(config),
            ),
            _ => (
                NegotiationState::Failed(PlaybackError::DeviceError),
                NegotiationAction::Abort {
                    error: PlaybackError::DeviceError,
                    release: self.holds_stream(reply),
                },
            ),
        }
    }
}

/// No stream is opened for a format that the device has not accepted, and
/// a rejected format is reported while no stream is open: the request to
/// open a stream answers only the device's acceptance of the very
/// configuration that is then opened, and `UnsupportedFormat` never comes
/// with a stream to release.
pub proof fn law_open_follows_acceptance(state: NegotiationState, reply: DeviceReply)
    ensures
        state.step(reply).1 matches NegotiationAction::OpenStream(config) ==> state
            == NegotiationState::CheckingFormat(config) && reply == DeviceReply::FormatSupported,
        state.step(reply).1 matches NegotiationAction::Abort { error, release } ==> (error
            == PlaybackError::UnsupportedFormat ==> !release),
{
}

/// Once a stream is open, every way out of negotiation releases it: a
/// negotiation that is starting its stream and does not get the start
/// confirmed aborts with a stream to release.
pub proof fn law_opened_stream_is_released(config: StreamConfig, reply: DeviceReply)
    requires
        reply != DeviceReply::StreamStarted,
    ensures
        NegotiationState::Starting(config).step(reply) == (
            NegotiationState::Failed(PlaybackError::DeviceError),
            NegotiationAction::Abort { error: PlaybackError::DeviceError, release: true },
        ),
{
}

/// Negotiates the output stream for a playback that starts with a given
/// frame.
pub struct StreamNegotiator {
    state: NegotiationState,
}

impl View for StreamNegotiator {
    type V = NegotiationState;

    closed spec fn view(&self) -> NegotiationState {
        self.state
    }
}

impl StreamNegotiator {
    /// Begins negotiation for a stream whose first frame is `first`, and
    /// says what to do first: look up the default output device.
    pub fn begin(first: &Frame) -> (begun: (StreamNegotiator, NegotiationAction))
        ensures
            begun.0@ == NegotiationState::initial(first@),
            begun.1 == NegotiationAction::QueryDefaultDevice,
    {
        (
            StreamNegotiator {
                state: NegotiationState::QueryingDevice(StreamConfig::derive(first, 0)),
            },
            NegotiationAction::QueryDefaultDevice,
        )
    }

    /// The state that negotiation is in.
    pub fn state(&self) -> (state: NegotiationState)
        ensures
            state == self@,
    {
        self.state
    }

    /// The negotiated configuration, once the stream runs.
    pub fn config(&self) -> (config: Option<StreamConfig>)
        ensures
            config == match self@ {
                NegotiationState::Ready(c) => Some(c),
                _ => None,
            },
    {
        match self.state {
            NegotiationState::Ready(c) => Some(c),
            _ => None,
        }
    }

    /// Takes the device's reply to the last action and says what to do
    /// next.
    pub fn advance(&mut self, reply: DeviceReply) -> (action: NegotiationAction)
        ensures
            final(self)@ == old(self)@.step(reply).0,
            action == old(self)@.step(reply).1,
    {
        let (next, action) = match (self.state, reply) {
            (NegotiationState::Ready(config), _) => (self.state, NegotiationAction::Proceed(config)),
            (NegotiationState::Failed(error), _) => (
                self.state,
                NegotiationAction::Abort { error, release: false },
            ),
            (NegotiationState::QueryingDevice(draft), DeviceReply::DefaultDevice { latency_bits }) => {
                let config = StreamConfig {
                    sample_rate: draft.sample_rate,
                    channel_count: draft.channel_count,
                    frames_per_buffer: draft.frames_per_buffer,
                    latency_bits,
                    interleaved: draft.interleaved,
                };
                (NegotiationState::CheckingFormat(config), NegotiationAction::CheckFormat(config))
            },
            (NegotiationState::CheckingFormat(config), DeviceReply::FormatSupported) => (
                NegotiationState::Opening(config),
                NegotiationAction::OpenStream(config),
            ),
            (NegotiationState::CheckingFormat(_), DeviceReply::FormatRejected) => (
                NegotiationState::Failed(PlaybackError::UnsupportedFormat),
                NegotiationAction::Abort { error: PlaybackError::UnsupportedFormat, release: false },
            ),
            (NegotiationState::Opening(config), DeviceReply::StreamOpened) => (
                NegotiationState::Starting(config),
                NegotiationAction::StartStream,
            ),
            (NegotiationState::Starting(config), DeviceReply::StreamStarted) => (
                NegotiationState::Ready(config),
                NegotiationAction::Proceed(config),
            ),
            (state, reply) => {
                let release = match (state, reply) {
                    (NegotiationState::Starting(_), _) => true,
                    (_, DeviceReply::StreamOpened) => true,
                    (_, DeviceReply::StreamStarted) => true,
                    _ => false,
                };
                (
                    NegotiationState::Failed(PlaybackError::DeviceError),
                    NegotiationAction::Abort { error: PlaybackError::DeviceError, release },
                )
            },
        };
        self.state = next;
        action
    }
}

} // verus!
