use vstd::prelude::*;
use crate::encoder::{EncoderState, SinkState, Stage};
use crate::frame::{Frame, FrameStatus};
use crate::time::Time;

verus! {

/// The pipeline's state after the first `n` frames of `frames` were processed
/// in order, starting from `start`; `sinks[i]` is what the sink answered for
/// `frames[i]`.
pub open spec fn state_after(
    start: EncoderState,
    frames: Seq<Frame>,
    sinks: Seq<SinkState>,
    n: nat,
) -> EncoderState
    decreases n,
{
    if n == 0 {
        start
    } else {
        state_after(start, frames, sinks, (n - 1) as nat).process(frames[n - 1], sinks[n - 1])
    }
}

/// Whether frame `i` of the stream is handed to the sink: it is complete and
/// the sink was ready for it.
pub open spec fn forwarded(frames: Seq<Frame>, sinks: Seq<SinkState>, i: int) -> bool {
    frames[i].status == FrameStatus::Complete && sinks[i] == SinkState::Ready
}

/// Processing keeps a well-formed state well-formed and never finalizes.
pub proof fn lemma_state_after_wf(
    start: EncoderState,
    frames: Seq<Frame>,
    sinks: Seq<SinkState>,
    n: nat,
)
    requires
        start.wf(),
    ensures
        state_after(start, frames, sinks, n).wf(),
        state_after(start, frames, sinks, n).finalized == start.finalized,
    decreases n,
{
    if n > 0 {
        lemma_state_after_wf(start, frames, sinks, (n - 1) as nat);
    }
}

/// No step takes a pipeline back to an earlier stage, and finalizing is the
/// only way into the last one.
pub proof fn lemma_stage_never_goes_back(state: EncoderState, frame: Frame, sink: SinkState)
    ensures
        state.process(frame, sink).stage().rank() >= state.stage().rank(),
        state.process(frame, sink).stage() == Stage::Finalized <==> state.stage()
            == Stage::Finalized,
        state.finish().stage() == Stage::Finalized,
{
}

/// A session that has started stays started and keeps its first timestamp,
/// and the sink is not asked for again: it is constructed at most once.
pub proof fn lemma_started_for_good(
    start: EncoderState,
    frames: Seq<Frame>,
    sinks: Seq<SinkState>,
    n: nat,
    next: Frame,
)
    requires
        start.session.started,
    ensures
        state_after(start, frames, sinks, n).session.started,
        state_after(start, frames, sinks, n).session.first_timestamp
            == start.session.first_timestamp,
        !(state_after(start, frames, sinks, n).prepare(next) is Open),
    decreases n,
{
    if n > 0 {
        lemma_started_for_good(start, frames, sinks, (n - 1) as nat, next);
    }
}

/// A stream without a complete frame leaves the pipeline as it was, whatever
/// the sink would have answered: a new pipeline stays idle.
pub proof fn lemma_incomplete_stream_changes_nothing(
    start: EncoderState,
    frames: Seq<Frame>,
    sinks: Seq<SinkState>,
    n: nat,
)
    requires
        n <= frames.len(),
        forall|i: int| 0 <= i < n ==> frames[i].status != FrameStatus::Complete,
    ensures
        state_after(start, frames, sinks, n) == start,
    decreases n,
{
    if n > 0 {
        lemma_incomplete_stream_changes_nothing(start, frames, sinks, (n - 1) as nat);
    }
}

/// The session of a new pipeline starts on the first complete frame and on no
/// other: it has not started before frame `k`, the first complete one, and
/// from that frame on its first timestamp is that frame's, for good. The sink
/// must have been there for frame `k`; without one the frame fails and starts
/// nothing.
pub proof fn lemma_session_starts_on_first_complete(
    frames: Seq<Frame>,
    sinks: Seq<SinkState>,
    k: nat,
    n: nat,
)
    requires
        k < frames.len(),
        n <= frames.len(),
        frames.len() == sinks.len(),
        frames[k as int].status == FrameStatus::Complete,
        forall|i: int| 0 <= i < k ==> frames[i].status != FrameStatus::Complete,
        sinks[k as int] != SinkState::Unavailable,
    ensures
        n <= k ==> state_after(EncoderState::initial(), frames, sinks, n)
            == EncoderState::initial(),
        n > k ==> state_after(EncoderState::initial(), frames, sinks, n).session.started,
        n > k ==> state_after(EncoderState::initial(), frames, sinks, n).session.first_timestamp
            == Some(frames[k as int].presentation_timestamp),
    decreases n,
{
    if n > 0 {
        lemma_session_starts_on_first_complete(frames, sinks, k, (n - 1) as nat);
    }
}

/// The session ends at the timestamp of the last frame handed to the sink:
/// if frame `k` is handed over and none after it is, the end bound after the
/// whole stream is the timestamp of frame `k`.
pub proof fn lemma_end_is_last_forwarded(
    start: EncoderState,
    frames: Seq<Frame>,
    sinks: Seq<SinkState>,
    k: nat,
    n: nat,
)
    requires
        k < n <= frames.len(),
        frames.len() == sinks.len(),
        forwarded(frames, sinks, k as int),
        forall|i: int| k < i < n ==> !forwarded(frames, sinks, i),
    ensures
        state_after(start, frames, sinks, n).session.end_bound()
            == frames[k as int].presentation_timestamp,
        state_after(start, frames, sinks, n).session.last_timestamp == Some(
            frames[k as int].presentation_timestamp,
        ),
    decreases n,
{
    if n > k + 1 {
        lemma_end_is_last_forwarded(start, frames, sinks, k, (n - 1) as nat);
        assert(!forwarded(frames, sinks, n - 1));
    }
}

/// Where no frame is handed to the sink the end bound does not move: for a
/// new pipeline it is the zero time.
pub proof fn lemma_end_unmoved_without_forwarded(
    start: EncoderState,
    frames: Seq<Frame>,
    sinks: Seq<SinkState>,
    n: nat,
)
    requires
        n <= frames.len(),
        frames.len() == sinks.len(),
        forall|i: int| 0 <= i < n ==> !forwarded(frames, sinks, i),
    ensures
        state_after(start, frames, sinks, n).session.last_timestamp
            == start.session.last_timestamp,
        state_after(start, frames, sinks, n).session.end_bound() == start.session.end_bound(),
        start == EncoderState::initial() ==> state_after(
            start,
            frames,
            sinks,
            n,
        ).session.end_bound() == Time::origin(),
    decreases n,
{
    if n > 0 {
        lemma_end_unmoved_without_forwarded(start, frames, sinks, (n - 1) as nat);
        assert(!forwarded(frames, sinks, n - 1));
    }
}

} // verus!
