//! The fatal conditions of playback.

use vstd::prelude::*;

verus! {

/// Why playback could not start or had to stop. Every one of these is final:
/// nothing is retried once it has been signalled.
#[derive(Clone, Copy, Debug, PartialEq, Eq, Structural)]
pub enum PlaybackError {
    /// The input path does not name an MP3 file, or the input cannot be read.
    InvalidInput,
    /// The input holds no decodable audio at all.
    NoFrames,
    /// A decode error after the first valid frame.
    DecodeFailure,
    /// The output device reported a failure.
    DeviceError,
    /// The output device rejects the sample rate and channel count.
    UnsupportedFormat,
    /// A later frame disagrees with the negotiated stream configuration.
    ContractViolation,
}

} // verus!
