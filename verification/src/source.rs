//! The frame source: what becomes of a decoder's results, one by one.
//!
//! The caller decodes and hands each result to the source. A source starts
//! out warming up and discards every decode error until the first valid
//! frame. From then on it is playing, and a decode error ends it. So does
//! the end of the results.

use vstd::prelude::*;
use std::collections::VecDeque;
use crate::error::PlaybackError;
use crate::frame::{DecodeResult, Frame};

verus! {

/// Where a frame source stands.
#[derive(Clone, Copy, Debug, PartialEq, Eq)]
pub enum SourcePhase {
    /// No valid frame has been seen yet; decode errors are passed over.
    WarmingUp,
    /// A valid frame has been handed out; a decode error is now fatal.
    Playing,
    /// Nothing more is taken: the results ended cleanly (`None`) or with
    /// the given error.
    Terminated(Option<PlaybackError>),
}

/// What a source makes of one decode result.
#[derive(Debug, PartialEq, Eq)]
pub enum Intake {
    /// The result was a decode error of the lead-in and has been discarded:
    /// the next result is wanted.
    Discarded,
    /// The source answers: with a frame, with the clean end of the stream
    /// (`Ok(None)`), or with an error.
    Answer(Result<Option<Frame>, PlaybackError>),
}

/// Number of decode errors at the head of `results`.
pub open spec fn leading_errors(results: Seq<DecodeResult>) -> nat
    decreases results.len(),
{
    if results.len() > 0 && results[0] is DecodeError {
        1 + leading_errors(results.skip(1))
    } else {
        0
    }
}

/// `leading_errors` counts the errors before the first valid frame: all
/// results before that position are errors, and the result at it, if there
/// is one, is a valid frame.
pub proof fn lemma_leading_errors(results: Seq<DecodeResult>)
    ensures
        leading_errors(results) <= results.len(),
        forall|i: int| 0 <= i < leading_errors(results) ==> (#[trigger] results[i]) is DecodeError,
        leading_errors(results) < results.len() ==> results[leading_errors(results) as int] is ValidFrame,
    decreases results.len(),
{
    if results.len() > 0 && results[0] is DecodeError {
        let rest = results.skip(1);
        lemma_leading_errors(rest);
        assert forall|i: int| 0 <= i < leading_errors(results) implies (#[trigger] results[i]) is DecodeError by {
            if i > 0 {
                assert(results[i] == rest[i - 1]);
            }
        }
    }
}

/// A position that has only errors before it and no error at it is the
/// number of leading errors.
pub proof fn lemma_leading_errors_unique(results: Seq<DecodeResult>, k: nat)
    requires
        k <= results.len(),
        forall|i: int| 0 <= i < k ==> (#[trigger] results[i]) is DecodeError,
        k < results.len() ==> results[k as int] is ValidFrame,
    ensures
        leading_errors(results) == k,
    decreases k,
{
    if k > 0 {
        let rest = results.skip(1);
        assert forall|i: int| 0 <= i < k - 1 implies (#[trigger] rest[i]) is DecodeError by {
            assert(rest[i] == results[i + 1]);
        }
        lemma_leading_errors_unique(rest, (k - 1) as nat);
    }
}

/// What a [`FrameSource`] holds: its phase, and the description of the
/// decode error that ended it, if one did.
pub struct SourceView {
    pub phase: SourcePhase,
    pub failure: Option<Seq<char>>,
}

impl SourceView {
    /// A source that has not been handed anything yet.
    pub open spec fn fresh() -> SourceView {
        SourceView { phase: SourcePhase::WarmingUp, failure: None }
    }

    /// The source after it has been handed `item`, the next decode result
    /// or `None` for the end of the results, and what it makes of it.
    ///
    /// - Warming up: an error is discarded, a frame is handed out and turns
    ///   the source to playing, the end is `NoFrames`.
    /// - Playing: a frame is handed out, the end is the clean end of the
    ///   stream, an error is `DecodeFailure` and its text is kept.
    /// - Terminated: the source repeats its answer and stays as it is.
    pub open spec fn accept(self, item: Option<DecodeResult>) -> (SourceView, Intake) {
        match self.phase {
            SourcePhase::Terminated(None) => (self, Intake::Answer(Ok(None))),
            SourcePhase::Terminated(Some(error)) => (self, Intake::Answer(Err(error))),
            SourcePhase::WarmingUp => match item {
                Some(DecodeResult::DecodeError(_)) => (self, Intake::Discarded),
                Some(DecodeResult::ValidFrame(frame)) => (
                    SourceView { phase: SourcePhase::Playing, ..self },
                    Intake::Answer(Ok(Some(frame))),
                ),
                None => (
                    SourceView {
                        phase: SourcePhase::Terminated(Some(PlaybackError::NoFrames)),
                        ..self
                    },
                    Intake::Answer(Err(PlaybackError::NoFrames)),
                ),
            },
            SourcePhase::Playing => match item {
                Some(DecodeResult::DecodeError(detail)) => (
                    SourceView {
                        phase: SourcePhase::Terminated(Some(PlaybackError::DecodeFailure)),
                        failure: Some(detail@),
                    },
                    Intake::Answer(Err(PlaybackError::DecodeFailure)),
                ),
                Some(DecodeResult::ValidFrame(frame)) => (self, Intake::Answer(Ok(Some(frame)))),
                None => (
                    SourceView { phase: SourcePhase::Terminated(None), ..self },
                    Intake::Answer(Ok(None)),
                ),
            },
        }
    }

    /// How many of the results `pending` the source takes until it answers.
    pub open spec fn consumed(self, pending: Seq<DecodeResult>) -> nat {
        match self.phase {
            SourcePhase::Terminated(_) => 0,
            SourcePhase::Playing => if pending.len() > 0 {
                1
            } else {
                0
            },
            SourcePhase::WarmingUp => if leading_errors(pending) < pending.len() {
                leading_errors(pending) + 1
            } else {
                leading_errors(pending)
            },
        }
    }

    /// What the source answers when it is handed the results `pending` one
    /// by one, and after them the end: a frame, the clean end of the stream
    /// (`Ok(None)`), or an error.
    pub open spec fn signal(self, pending: Seq<DecodeResult>) -> Result<Option<Frame>, PlaybackError> {
        match self.phase {
            SourcePhase::Terminated(None) => Ok(None),
            SourcePhase::Terminated(Some(error)) => Err(error),
            SourcePhase::Playing => if pending.len() == 0 {
                Ok(None)
            } else {
                match pending[0] {
                    DecodeResult::ValidFrame(frame) => Ok(Some(frame)),
                    DecodeResult::DecodeError(_) => Err(PlaybackError::DecodeFailure),
                }
            },
            SourcePhase::WarmingUp => if leading_errors(pending) < pending.len() {
                Ok(Some(pending[leading_errors(pending) as int]->ValidFrame_0))
            } else {
                Err(PlaybackError::NoFrames)
            },
        }
    }

    /// The source once it has answered to the results `pending`.
    pub open spec fn after(self, pending: Seq<DecodeResult>) -> SourceView {
        SourceView {
            phase: match self.signal(pending) {
                Ok(Some(_)) => SourcePhase::Playing,
                Ok(None) => SourcePhase::Terminated(None),
                Err(error) => SourcePhase::Terminated(Some(error)),
            },
            failure: if self.phase is Playing && pending.len() > 0 {
                match pending[0] {
                    DecodeResult::DecodeError(detail) => Some(detail@),
                    DecodeResult::ValidFrame(_) => self.failure,
                }
            } else {
                self.failure
            },
        }
    }

    /// The head of `pending`, or the end where nothing is pending.
    pub open spec fn head(pending: Seq<DecodeResult>) -> Option<DecodeResult> {
        if pending.len() > 0 {
            Some(pending[0])
        } else {
            None
        }
    }
}

/// Handing over results one by one reads the sequence: where the source
/// discards the head of `pending`, it answers to the whole as it then
/// answers to the rest; where it answers to the head, or to the end, that
/// is its answer to the whole, and it has taken no more than the head.
pub proof fn law_accept_reads_the_sequence(source: SourceView, pending: Seq<DecodeResult>)
    ensures
        match source.accept(SourceView::head(pending)).1 {
            Intake::Discarded => {
                &&& pending.len() > 0
                &&& source.signal(pending) == source.accept(SourceView::head(pending)).0.signal(
                    pending.skip(1),
                )
                &&& source.after(pending) == source.accept(SourceView::head(pending)).0.after(
                    pending.skip(1),
                )
                &&& source.consumed(pending) == 1 + source.accept(
                    SourceView::head(pending),
                ).0.consumed(pending.skip(1))
            },
            Intake::Answer(signal) => {
                &&& source.signal(pending) == signal
                &&& source.after(pending) == source.accept(SourceView::head(pending)).0
                &&& source.consumed(pending) == if source.phase is Terminated || pending.len() == 0 {
                    0nat
                } else {
                    1nat
                }
            },
        },
{
    if source.phase is WarmingUp && pending.len() > 0 && pending[0] is DecodeError {
        lemma_leading_errors(pending.skip(1));
    }
}

/// Warm-up discards exactly the decode errors that come before the first
/// valid frame and hands that frame out unchanged: a fresh source whose
/// first `k` results are errors and whose result `k` is the frame `frame`
/// answers with `frame`, has then taken `k + 1` results, and is playing.
pub proof fn law_warm_up_discards_leading_errors(results: Seq<DecodeResult>, k: nat, frame: Frame)
    requires
        k < results.len(),
        forall|i: int| 0 <= i < k ==> (#[trigger] results[i]) is DecodeError,
        results[k as int] == DecodeResult::ValidFrame(frame),
    ensures
        SourceView::fresh().signal(results) == Ok::<Option<Frame>, PlaybackError>(Some(frame)),
        SourceView::fresh().consumed(results) == k + 1,
        SourceView::fresh().after(results) == (SourceView {
            phase: SourcePhase::Playing,
            failure: None,
        }),
{
    lemma_leading_errors_unique(results, k);
}

/// A fresh source whose results are all decode errors answers `NoFrames`,
/// having taken every one of them, and is terminated with that error.
pub proof fn law_only_errors_give_no_frames(results: Seq<DecodeResult>)
    requires
        forall|i: int| 0 <= i < results.len() ==> (#[trigger] results[i]) is DecodeError,
    ensures
        SourceView::fresh().signal(results) == Err::<Option<Frame>, PlaybackError>(
            PlaybackError::NoFrames,
        ),
        SourceView::fresh().consumed(results) == results.len(),
        SourceView::fresh().after(results).phase == SourcePhase::Terminated(
            Some(PlaybackError::NoFrames),
        ),
{
    lemma_leading_errors_unique(results, results.len());
}

/// A decode error after the first valid frame is fatal: a playing source
/// with an error at the head of its results answers `DecodeFailure`, takes
/// only that error, keeps its description, and from then on repeats the
/// answer without taking anything, whatever is held out to it.
pub proof fn law_error_while_playing_is_fatal(
    source: SourceView,
    pending: Seq<DecodeResult>,
    later: Seq<DecodeResult>,
)
    requires
        source.phase is Playing,
        pending.len() > 0,
        pending[0] is DecodeError,
    ensures
        source.signal(pending) == Err::<Option<Frame>, PlaybackError>(PlaybackError::DecodeFailure),
        source.consumed(pending) == 1,
        source.after(pending).failure == Some(pending[0]->DecodeError_0@),
        source.after(pending).signal(later) == source.signal(pending),
        source.after(pending).consumed(later) == 0,
        source.after(pending).after(later) == source.after(pending),
{
}

/// A terminated source repeats its answer, takes nothing, and stays as it
/// is.
pub proof fn law_terminated_source_is_final(source: SourceView, pending: Seq<DecodeResult>)
    requires
        source.phase is Terminated,
    ensures
        source.consumed(pending) == 0,
        source.signal(pending) == match source.phase->Terminated_0 {
            None => Ok::<Option<Frame>, PlaybackError>(None),
            Some(error) => Err(error),
        },
        source.after(pending) == source,
        source.accept(SourceView::head(pending)) == (source, Intake::Answer(source.signal(pending))),
{
}

/// The cleaned-up reading of a decoder's results: decode errors before the
/// first valid frame are passed over, and a decode error after it is fatal.
pub struct FrameSource {
    phase: SourcePhase,
    failure: Option<String>,
}

impl View for FrameSource {
    type V = SourceView;

    closed spec fn view(&self) -> SourceView {
        SourceView {
            phase: self.phase,
            failure: match self.failure {
                Some(detail) => Some(detail@),
                None => None,
            },
        }
    }
}

impl FrameSource {
    /// A source that has not been handed anything yet.
    pub fn new() -> (source: FrameSource)
        ensures
            source@ == SourceView::fresh(),
    {
        FrameSource { phase: SourcePhase::WarmingUp, failure: None }
    }

    /// The phase that the source is in.
    pub fn phase(&self) -> (phase: SourcePhase)
        ensures
            phase == self@.phase,
    {
        self.phase
    }

    /// The description of the decode error that ended the source, if one
    /// did.
    pub fn failure_detail(&self) -> (detail: Option<&String>)
        ensures
            match detail {
                Some(text) => self@.failure == Some(text@),
                None => self@.failure is None,
            },
    {
        self.failure.as_ref()
    }

    /// Takes the next decode result, or `None` for the end of the results,
    /// and says what it leads to; see [`SourceView::accept`].
    pub fn accept(&mut self, item: Option<DecodeResult>) -> (intake: Intake)
        ensures
            final(self)@ == old(self)@.accept(item).0,
            intake == old(self)@.accept(item).1,
    {
        match self.phase {
            SourcePhase::Terminated(None) => Intake::Answer(Ok(None)),
            SourcePhase::Terminated(Some(error)) => Intake::Answer(Err(error)),
            SourcePhase::WarmingUp => match item {
                Some(DecodeResult::DecodeError(_)) => Intake::Discarded,
                Some(DecodeResult::ValidFrame(frame)) => {
                    self.phase = SourcePhase::Playing;
                    Intake::Answer(Ok(Some(frame)))
                },
                None => {
                    self.phase = SourcePhase::Terminated(Some(PlaybackError::NoFrames));
                    Intake::Answer(Err(PlaybackError::NoFrames))
                },
            },
            SourcePhase::Playing => match item {
                Some(DecodeResult::DecodeError(detail)) => {
                    self.failure = Some(detail);
                    self.phase = SourcePhase::Terminated(Some(PlaybackError::DecodeFailure));
                    Intake::Answer(Err(PlaybackError::DecodeFailure))
                },
                Some(DecodeResult::ValidFrame(frame)) => Intake::Answer(Ok(Some(frame))),
                None => {
                    self.phase = SourcePhase::Terminated(None);
                    Intake::Answer(Ok(None))
                },
            },
        }
    }

    /// Hands out the next valid frame of results that are at hand, taking
    /// them from the front of `results` until the source answers.
    ///
    /// While warming up, decode errors are discarded until a valid frame
    /// comes; if the results end first, the answer is `NoFrames`. While
    /// playing, the next result decides: a frame is handed out, the end of
    /// the results gives `Ok(None)`, and a decode error gives
    /// `DecodeFailure`. A terminated source repeats its last answer and
    /// takes nothing.
    pub fn next_valid_frame(&mut self, results: &mut VecDeque<DecodeResult>) -> (signal: Result<
        Option<Frame>,
        PlaybackError,
    >)
        ensures
            signal == old(self)@.signal(old(results)@),
            final(self)@ == old(self)@.after(old(results)@),
            final(results)@ == old(results)@.skip(old(self)@.consumed(old(results)@) as int),
    {
        match self.phase {
            SourcePhase::Terminated(None) => {
                return Ok(None);
            },
            SourcePhase::Terminated(Some(error)) => {
                return Err(error);
            },
            _ => {},
        }
        let ghost mut taken: int = 0;
        loop
            invariant
                !(self@.phase is Terminated),
                0 <= taken <= old(results)@.len(),
                results@ == old(results)@.skip(taken),
                self@.signal(results@) == old(self)@.signal(old(results)@),
                self@.after(results@) == old(self)@.after(old(results)@),
                taken + self@.consumed(results@) == old(self)@.consumed(old(results)@),
            decreases results@.len(),
        {
            proof {
                law_accept_reads_the_sequence(self@, results@);
            }
            let item = results.pop_front();
            match self.accept(item) {
                Intake::Discarded => {
                    proof {
                        taken = taken + 1;
                    }
                },
                Intake::Answer(signal) => {
                    return signal;
                },
            }
        }
    }
}

} // verus!
