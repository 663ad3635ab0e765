//! Decoded audio frames and the results of single decode steps.

use vstd::prelude::*;

verus! {

/// The mathematical content of a [`Frame`]: its sample rate and one block of
/// samples per channel.
pub struct FrameView {
    pub sample_rate: nat,
    pub channels: Seq<Seq<i32>>,
}

impl FrameView {
    /// Number of channels.
    pub open spec fn channel_count(self) -> nat {
        self.channels.len()
    }

    /// Number of samples that the first channel holds; zero for a frame
    /// without channels.
    pub open spec fn samples_per_channel(self) -> nat {
        if self.channels.len() == 0 {
            0
        } else {
            self.channels[0].len()
        }
    }

    /// Every channel holds the same number of samples.
    pub open spec fn rectangular(self) -> bool {
        forall|j: int|
            0 <= j < self.channels.len() ==> (#[trigger] self.channels[j]).len()
                == self.samples_per_channel()
    }

    /// What every frame satisfies: the channels are equally long, the sample
    /// rate is a 32-bit number, and both counts are within what an output
    /// stream can be asked to take in one write.
    pub open spec fn valid(self) -> bool {
        &&& self.rectangular()
        &&& self.sample_rate <= u32::MAX
        &&& self.channel_count() <= i32::MAX
        &&& self.samples_per_channel() <= u32::MAX
    }

    /// The samples in frame-major order: all channels of sample 0, then all
    /// channels of sample 1, and so on.
    pub open spec fn interleaved(self) -> Seq<i32> {
        Seq::new(
            self.samples_per_channel() * self.channel_count(),
            |k: int| self.channels[k % (self.channel_count() as int)][k / (self.channel_count() as int)],
        )
    }
}

/// One decoded unit of PCM audio: a sample rate in Hz and, for each channel,
/// a block of samples in the decoder's 32-bit fixed-point format.
///
/// All blocks of a frame have the same length. A frame has at most
/// `i32::MAX` channels and at most `u32::MAX` samples per channel.
#[derive(Debug, PartialEq, Eq)]
pub struct Frame {
    sample_rate: u32,
    samples: Vec<Vec<i32>>,
}

impl View for Frame {
    type V = FrameView;

    closed spec fn view(&self) -> FrameView {
        FrameView { sample_rate: self.sample_rate as nat, channels: self.samples.deep_view() }
    }
}

impl Clone for Frame {
    fn clone(&self) -> (copy: Frame)
        ensures
            copy@ == self@,
    {
        proof {
            use_type_invariant(self);
        }
        let mut samples: Vec<Vec<i32>> = Vec::new();
        let mut j: usize = 0;
        while j < self.samples.len()
            invariant
                j <= self.samples.len(),
                samples@.len() == j,
                forall|k: int| 0 <= k < j ==> (#[trigger] samples@[k])@ == self.samples@[k]@,
            decreases self.samples.len() - j,
        {
            samples.push(self.samples[j].clone());
            j += 1;
        }
        assert(samples.deep_view() =~~= self.samples.deep_view());
        Frame { sample_rate: self.sample_rate, samples }
    }
}

impl Frame {
    /// The invariant of the type: the view is valid.
    #[verifier::type_invariant]
    pub open spec fn well_formed(&self) -> bool {
        self@.valid()
    }

    /// Builds a frame from per-channel blocks. The result is `None` if and
    /// only if the blocks differ in length, or there are more channels or
    /// more samples per channel than a frame may hold.
    pub fn new(sample_rate: u32, samples: Vec<Vec<i32>>) -> (frame: Option<Frame>)
        ensures
            frame is Some <==> (FrameView {
                sample_rate: sample_rate as nat,
                channels: samples.deep_view(),
            }).valid(),
            frame matches Some(f) ==> f@ == (FrameView {
                sample_rate: sample_rate as nat,
                channels: samples.deep_view(),
            }),
    {
        let ghost view = FrameView { sample_rate: sample_rate as nat, channels: samples.deep_view() };
        let channels = samples.len();
        if channels > i32::MAX as usize {
            return None;
        }
        if channels > 0 && samples[0].len() > u32::MAX as usize {
            return None;
        }
        let mut j: usize = 0;
        while j < channels
            invariant
                j <= channels,
                channels == samples@.len(),
                view.channels == samples.deep_view(),
                forall|k: int| 0 <= k < j ==> (#[trigger] view.channels[k]).len() == view.samples_per_channel(),
            decreases channels - j,
        {
            if samples[j].len() != samples[0].len() {
                assert(view.channels[j as int].len() != view.samples_per_channel());
                return None;
            }
            j += 1;
        }
        Some(Frame { sample_rate, samples })
    }

    /// The sample rate in Hz.
    pub fn sample_rate(&self) -> (rate: u32)
        ensures
            rate == self@.sample_rate,
    {
        self.sample_rate
    }

    /// The number of channels.
    pub fn channel_count(&self) -> (count: usize)
        ensures
            count == self@.channel_count(),
    {
        self.samples.len()
    }

    /// The number of samples in each channel.
    pub fn samples_per_channel(&self) -> (count: usize)
        ensures
            count == self@.samples_per_channel(),
    {
        if self.samples.len() == 0 {
            0
        } else {
            self.samples[0].len()
        }
    }

    /// The sample blocks, one per channel.
    pub fn samples(&self) -> (blocks: &Vec<Vec<i32>>)
        ensures
            blocks.deep_view() == self@.channels,
    {
        &self.samples
    }
}

/// What one decode step produced: a frame, or the description of a decode
/// error.
#[derive(Clone, Debug, PartialEq, Eq)]
pub enum DecodeResult {
    /// The step decoded a frame.
    ValidFrame(Frame),
    /// The step failed; the text describes the failure and is not interpreted.
    DecodeError(String),
}

impl DecodeResult {
    /// What a decode result is when the decoder hands out a sample rate and
    /// per-channel blocks: a valid frame of exactly these, where they make
    /// one, and otherwise a decode error that says `malformed frame`.
    pub open spec fn of_blocks(self, sample_rate: u32, samples: Seq<Seq<i32>>) -> bool {
        let view = FrameView { sample_rate: sample_rate as nat, channels: samples };
        match self {
            DecodeResult::ValidFrame(frame) => view.valid() && frame@ == view,
            DecodeResult::DecodeError(detail) => !view.valid() && detail@ == "malformed frame"@,
        }
    }

    /// The result of a decode step that produced `samples` at `sample_rate`.
    /// Blocks that do not make a frame count as a decode error.
    pub fn decoded(sample_rate: u32, samples: Vec<Vec<i32>>) -> (result: DecodeResult)
        ensures
            result.of_blocks(sample_rate, samples.deep_view()),
    {
        match Frame::new(sample_rate, samples) {
            Some(frame) => DecodeResult::ValidFrame(frame),
            None => DecodeResult::DecodeError("malformed frame".to_owned()),
        }
    }
}

} // verus!
