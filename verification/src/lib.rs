//! A real-time bridge between a pull-based MP3 frame decoder and a push-based
//! audio output stream.
//!
//! The crate holds the decisions of playback and proves them:
//!
//! - [`input`] accepts or rejects the input path;
//! - [`frame`] holds decoded frames and decode results;
//! - [`source`] passes over the decode errors of the lead-in and ends on the
//!   first error after it;
//! - [`negotiate`] derives the stream configuration from the first frame
//!   and leads the output device from its first query to a running stream;
//! - [`interleave`] rearranges a frame's channels into one output buffer;
//! - [`pump`] decides, event by event, when to poll, what to write, when to
//!   ask for the next decode result and when to stop.
//!
//! Decoder and device calls are left to the caller, who performs each
//! [`negotiate::NegotiationAction`] and [`pump::PumpAction`] and reports back
//! with a [`negotiate::DeviceReply`] or a [`pump::PumpEvent`].

pub mod error;
pub mod frame;
pub mod input;
pub mod interleave;
pub mod source;
pub mod negotiate;
pub mod pump;
