//! The streaming sink adapter: one sample per frame, replicated across
//! every channel slot of a host-supplied output buffer.

use vstd::prelude::*;

use crate::source::SampleSource;

verus! {

/// Number of frames a buffer of `len` slots holds at `channels` slots
/// per frame.  A ragged trailing group of fewer than `channels` slots
/// still counts as one frame, as the chunked walk of the buffer treats
/// it as one.
pub open spec fn frame_count(len: int, channels: int) -> int
    recommends
        channels >= 1,
{
    (len + channels - 1) / channels
}

/// Shape of a filled buffer: slot `i` belongs to frame `i / channels`,
/// and holds exactly the source's value for the tick that frame was
/// drawn at.  Mono replication is a direct consequence: two slots of
/// the same frame hold the same value.
pub open spec fn frames_written(
    out: Seq<i16>,
    src: SampleSource,
    start_tick: nat,
    channels: int,
) -> bool {
    forall|i: int|
        0 <= i < out.len() ==> out[i] == src.value_at(
            (start_tick + i / channels) as nat,
        )
}

/// Fill the whole output buffer from the source, one sample per frame,
/// writing the identical value into every channel slot of a frame.
/// Frames are drawn in order, none skipped and none duplicated: slot
/// `i` receives the source's value for tick `start + i / channels`,
/// and the clock has advanced by exactly the number of frames when the
/// call returns.  The buffer keeps its length: nothing is allocated or
/// freed in it.
#[verifier::loop_isolation(false)]
pub fn write_frames(output: &mut Vec<i16>, channels: usize, src: &mut SampleSource)
    requires
        channels >= 1,
        old(src).wf(),
    ensures
        final(src).wf(),
        final(src).samples() == old(src).samples(),
        final(src).stride() == old(src).stride(),
        final(src).rate() == old(src).rate(),
        final(src).ticks() == old(src).ticks() + frame_count(
            old(output).len() as int,
            channels as int,
        ),
        final(output).len() == old(output).len(),
        frames_written(final(output)@, *old(src), old(src).ticks(), channels as int),
{
    let len = output.len();
    let mut start: usize = 0;
    let ghost mut frames: int = 0;
    while start < len
        invariant
            0 <= frames,
            start == frames * (channels as int) || (start == len && frames == frame_count(
                len as int,
                channels as int,
            )),
            start <= len,
            output.len() == len,
            src.wf(),
            src.samples() == old(src).samples(),
            src.stride() == old(src).stride(),
            src.rate() == old(src).rate(),
            src.ticks() == old(src).ticks() + frames,
            forall|i: int|
                0 <= i < start ==> output@[i] == old(src).value_at(
                    (old(src).ticks() + i / (channels as int)) as nat,
                ),
        decreases len - start,
    {
        let ghost src_top = *src;
        let ghost out_top = output@;
        let s = src.next_sample();
        proof {
            SampleSource::lemma_deterministic(src_top, *old(src), src_top.ticks());
        }
        let remaining = len - start;
        let m = if remaining < channels {
            remaining
        } else {
            channels
        };
        let mut c: usize = 0;
        while c < m
            invariant
                c <= m,
                output.len() == len,
                forall|i: int| 0 <= i < start ==> output@[i] == out_top[i],
                forall|i: int| start <= i < start + c ==> output@[i] == s,
            decreases m - c,
        {
            output[start + c] = s;
            c += 1;
        }
        proof {
            assert forall|i: int| start <= i < start + m implies #[trigger] (i / (
            channels as int)) == frames by {
                vstd::arithmetic::div_mod::lemma_fundamental_div_mod_converse(
                    i,
                    channels as int,
                    frames,
                    i - frames * (channels as int),
                );
            }
            vstd::arithmetic::mul::lemma_mul_is_distributive_add_other_way(
                channels as int,
                frames,
                1,
            );
            if m < channels {
                // The ragged tail: this was the last frame, and the
                // frame counter reaches the ceiling of len / channels.
                vstd::arithmetic::div_mod::lemma_fundamental_div_mod_converse(
                    len + channels - 1,
                    channels as int,
                    frames + 1,
                    m - 1,
                );
            }
            assert forall|i: int| 0 <= i < start + m implies output@[i] == old(
                src,
            ).value_at((old(src).ticks() + i / (channels as int)) as nat) by {
                if i >= start {
                    assert(output@[i] == s);
                    assert(i / (channels as int) == frames);
                    assert((old(src).ticks() + frames) as nat == src_top.ticks());
                    assert(s == old(src).value_at(src_top.ticks()));
                } else {
                    assert(output@[i] == out_top[i]);
                    assert(out_top[i] == old(src).value_at(
                        (old(src).ticks() + i / (channels as int)) as nat,
                    ));
                }
            }
            frames = frames + 1;
        }
        start = start + m;
    }
    proof {
        // On exit every slot is written; if the buffer was a whole
        // number of frames, the counter is len / channels rounded up.
        if len as int == frames * (channels as int) {
            vstd::arithmetic::div_mod::lemma_fundamental_div_mod_converse(
                len + channels - 1,
                channels as int,
                frames,
                channels - 1,
            );
        }
    }
}

/// Mono replication: in a buffer the adapter has filled, every channel
/// slot of one frame holds the exact same value.
pub proof fn lemma_mono_replication(
    out: Seq<i16>,
    src: SampleSource,
    start_tick: nat,
    channels: int,
    i1: int,
    i2: int,
)
    requires
        channels >= 1,
        frames_written(out, src, start_tick, channels),
        0 <= i1 < out.len(),
        0 <= i2 < out.len(),
        i1 / channels == i2 / channels,
    ensures
        out[i1] == out[i2],
{
}

/// The wrap-around law seen from the buffer: in a run that started
/// from a fresh clock, the slot of frame `n` was synthesized at phase
/// `n % rate`, so it holds the table entry at `stride * (n % rate)`.
pub proof fn lemma_frame_phase_from_start(
    out: Seq<i16>,
    src: SampleSource,
    channels: int,
    i: int,
)
    requires
        channels >= 1,
        frames_written(out, src, 0, channels),
        0 <= i < out.len(),
    ensures
        out[i] == src.samples()[(src.stride() as int) * ((((i / channels) as nat)
            % src.rate()) as int)],
{
    src.lemma_value_at((i / channels) as nat);
}

/// Determinism of a whole run: the adapter's contract pins every slot
/// of the output, so two buffers of equal length filled from sources
/// built alike, starting at the same tick, are equal throughout.
pub proof fn lemma_run_deterministic(
    out1: Seq<i16>,
    out2: Seq<i16>,
    src1: SampleSource,
    src2: SampleSource,
    start_tick: nat,
    channels: int,
)
    requires
        channels >= 1,
        src1.samples() == src2.samples(),
        src1.stride() == src2.stride(),
        src1.rate() == src2.rate(),
        frames_written(out1, src1, start_tick, channels),
        frames_written(out2, src2, start_tick, channels),
        out1.len() == out2.len(),
    ensures
        out1 == out2,
{
    assert forall|i: int| 0 <= i < out1.len() implies out1[i] == out2[i] by {
        SampleSource::lemma_deterministic(
            src1,
            src2,
            (start_tick + i / channels) as nat,
        );
    }
    assert(out1 =~= out2);
}

} // verus!
