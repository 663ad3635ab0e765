//! Channel-major sample blocks to one frame-major buffer.

use vstd::prelude::*;
use vstd::arithmetic::div_mod::lemma_fundamental_div_mod_converse;
use crate::frame::{Frame, FrameView};

verus! {

/// Position `i * channels + j` of an interleaved buffer holds sample `i` of
/// channel `j`, and the buffer has one position for each sample.
pub proof fn lemma_interleaved_layout(view: FrameView)
    requires
        view.rectangular(),
    ensures
        view.interleaved().len() == view.samples_per_channel() * view.channel_count(),
        forall|i: int, j: int|
            0 <= i < view.samples_per_channel() && 0 <= j < view.channel_count()
                ==> view.interleaved()[i * view.channel_count() + j] == #[trigger] view.channels[j][i],
{
    assert forall|i: int, j: int|
        0 <= i < view.samples_per_channel() && 0 <= j < view.channel_count() implies view.interleaved()[i
        * view.channel_count() + j] == #[trigger] view.channels[j][i] by {
        lemma_slot(i, j, view.samples_per_channel() as int, view.channel_count() as int);
    }
}

/// Slot `i * c + j` lies within `n * c` slots and splits back into `i` and
/// `j`.
proof fn lemma_slot(i: int, j: int, n: int, c: int)
    requires
        0 <= i < n,
        0 <= j < c,
    ensures
        0 <= i * c + j < n * c,
        (i * c + j) / c == i,
        (i * c + j) % c == j,
{
    assert(0 <= i * c && (i + 1) * c <= n * c) by (nonlinear_arith)
        requires
            0 <= i < n,
            0 < c,
    ;
    assert((i + 1) * c == i * c + c) by (nonlinear_arith);
    lemma_fundamental_div_mod_converse(i * c + j, c, i, j);
}

/// Rearranges the per-channel blocks of `frame` into one interleaved buffer:
/// for `n` samples per channel and `c` channels the buffer has `n * c`
/// entries, and entry `i * c + j` is sample `i` of channel `j`.
pub fn interleave(frame: &Frame) -> (buffer: Vec<i32>)
    ensures
        buffer@ == frame@.interleaved(),
        buffer@.len() == frame@.samples_per_channel() * frame@.channel_count(),
        forall|i: int, j: int|
            0 <= i < frame@.samples_per_channel() && 0 <= j < frame@.channel_count()
                ==> buffer@[i * frame@.channel_count() + j] == #[trigger] frame@.channels[j][i],
{
    proof {
        use_type_invariant(frame);
        lemma_interleaved_layout(frame@);
    }
    let blocks = frame.samples();
    let channels = frame.channel_count();
    let length = frame.samples_per_channel();
    let ghost target = frame@.interleaved();
    let mut buffer: Vec<i32> = Vec::new();
    let mut i: usize = 0;
    while i < length
        invariant
            i <= length,
            frame@.valid(),
            blocks.deep_view() == frame@.channels,
            channels == frame@.channel_count(),
            length == frame@.samples_per_channel(),
            target == frame@.interleaved(),
            buffer@.len() == i * channels,
            forall|k: int| 0 <= k < buffer@.len() ==> buffer@[k] == target[k],
        decreases length - i,
    {
        let mut j: usize = 0;
        while j < channels
            invariant
                i < length,
                j <= channels,
                frame@.valid(),
                blocks.deep_view() == frame@.channels,
                channels == frame@.channel_count(),
                length == frame@.samples_per_channel(),
                target == frame@.interleaved(),
                buffer@.len() == i * channels + j,
                forall|k: int| 0 <= k < buffer@.len() ==> buffer@[k] == target[k],
            decreases channels - j,
        {
            proof {
                lemma_slot(i as int, j as int, length as int, channels as int);
                assert(blocks.deep_view()[j as int] == blocks@[j as int]@);
            }
            buffer.push(blocks[j][i]);
            j += 1;
        }
        assert((i + 1) * channels == i * channels + channels) by (nonlinear_arith);
        i += 1;
    }
    buffer
}

} // verus!
