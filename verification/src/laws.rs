//! The laws the synchronization engine obeys, stated over the abstract
//! [`SyncState`] and proved once and for all.
//!
//! The central one: the pts a stream renders never decreases across any
//! sequence of operations — enqueue, end of stream, draw, pop, evict — so
//! consecutive successful draws from one stream show nondecreasing
//! timestamps. Beside it stand the idempotence of stale-frame eviction and
//! the monotonicity of the fallback slot.

use vstd::prelude::*;

use crate::sync::{DrawResult, Message, SyncState};

verus! {

/// One operation on a stream's synchronization state, as performed by the
/// executable methods of [`crate::video::InputVideo`].
pub enum SyncOp<T> {
    /// A decoded frame is offered to the queue.
    Upload { frame: T, pts: u64, last_rendered_pts: Option<u64> },
    /// The end-of-stream sentinel is enqueued.
    SendEndOfStream,
    /// A draw decision for the window is committed.
    Draw { window: Option<(u64, u64)> },
    /// Leading stale frames are evicted for the window.
    Evict { window: Option<(u64, u64)> },
    /// The front message is popped.
    Pop,
}

impl<T> SyncOp<T> {
    /// What the corresponding executable method requires of the state.
    pub open spec fn enabled(self, st: SyncState<T>) -> bool {
        match self {
            SyncOp::Upload { pts, .. } => !st.has_end_of_stream() && st.admits_pts(pts),
            SyncOp::SendEndOfStream => !st.has_end_of_stream(),
            SyncOp::Draw { .. } => true,
            SyncOp::Evict { .. } => true,
            SyncOp::Pop => true,
        }
    }

    /// The state the operation leaves behind.
    pub open spec fn step(self, st: SyncState<T>) -> SyncState<T> {
        match self {
            SyncOp::Upload { frame, pts, last_rendered_pts } => st.after_upload(
                frame,
                pts,
                last_rendered_pts,
            ),
            SyncOp::SendEndOfStream => st.after_end_of_stream(),
            SyncOp::Draw { window } => st.after_draw(window),
            SyncOp::Evict { window } => st.after_evict(window),
            SyncOp::Pop => st.after_pop(),
        }
    }
}

/// The state after running a whole sequence of operations, oldest first.
pub open spec fn run<T>(st: SyncState<T>, ops: Seq<SyncOp<T>>) -> SyncState<T>
    decreases ops.len(),
{
    if ops.len() == 0 {
        st
    } else {
        run(ops[0].step(st), ops.skip(1))
    }
}

/// Whether each operation of the sequence is enabled in the state it runs in.
pub open spec fn trace_enabled<T>(st: SyncState<T>, ops: Seq<SyncOp<T>>) -> bool
    decreases ops.len(),
{
    ops.len() == 0 || (ops[0].enabled(st) && trace_enabled(ops[0].step(st), ops.skip(1)))
}

/// The pts the draw decision would render: the front frame's, or with an
/// empty queue the fallback's; none when the front is the sentinel.
pub open spec fn candidate_pts<T>(st: SyncState<T>) -> Option<u64> {
    if st.frames.len() > 0 {
        match st.frames[0] {
            Message::Frame { pts, .. } => Some(pts),
            Message::EndOfStream => None,
        }
    } else {
        st.fallback_pts()
    }
}

/// A lower bound that tracks the rendered pts even while the front is the
/// sentinel: the candidate pts when there is one, else the fallback's pts,
/// else zero.
pub open spec fn candidate_floor<T>(st: SyncState<T>) -> u64 {
    match candidate_pts(st) {
        Some(p) => p,
        None => match st.fallback_pts() {
            Some(f) => f,
            None => 0,
        },
    }
}

/// Whether the fallback's pts did not decrease from `a` to `b` (losing the
/// fallback altogether also counts as a decrease).
pub open spec fn fallback_nondecreased<T>(a: SyncState<T>, b: SyncState<T>) -> bool {
    a.fallback_pts() matches Some(f) ==> (b.fallback_pts() matches Some(g) && f <= g)
}

/// Whether the fallback frame is no newer than the front frame, when both
/// exist. Pops and evictions keep the fallback monotone exactly under this
/// condition; a stream that re-delivers frames behind the rendered timeline
/// can violate it.
pub open spec fn fallback_at_most_front<T>(st: SyncState<T>) -> bool {
    match (st.fallback_pts(), st.front_pts()) {
        (Some(f), Some(p)) => f <= p,
        _ => true,
    }
}

/// Every message of the stale prefix is a frame strictly behind the window's
/// start, so eviction never removes the end-of-stream sentinel or a frame
/// still in the window.
pub proof fn lemma_stale_prefix_chars<T>(frames: Seq<Message<T>>, window: Option<(u64, u64)>)
    ensures
        0 <= SyncState::<T>::stale_prefix_len(frames, window) <= frames.len(),
        forall|i: int|
            0 <= i < SyncState::<T>::stale_prefix_len(frames, window) ==> (#[trigger] frames[i])
                is Frame && (window matches Some(w) && frames[i]->pts < w.0),
    decreases frames.len(),
{
    if frames.len() > 0 && frames[0] is Frame && (window matches Some(w) && frames[0]->pts < w.0) {
        lemma_stale_prefix_chars(frames.skip(1), window);
        assert forall|i: int|
            0 <= i < SyncState::<T>::stale_prefix_len(frames, window) implies (#[trigger] frames[i])
            is Frame && (window matches Some(w) && frames[i]->pts < w.0) by {
            if i > 0 {
                assert(frames.skip(1)[i - 1] == frames[i]);
            }
        }
    }
}

/// Every operation leaves a well-formed state well formed.
pub proof fn lemma_step_preserves_wf<T>(st: SyncState<T>, op: SyncOp<T>)
    requires
        st.wf(),
        op.enabled(st),
    ensures
        op.step(st).wf(),
{
    match op {
        SyncOp::Upload { frame, pts, last_rendered_pts } => {
            if SyncState::<T>::accepts_frame(pts, last_rendered_pts) {
                let fr = st.frames.push(Message::Frame { pts, frame });
                assert forall|i: int|
                    0 <= i < fr.len() && (#[trigger] fr[i]) is EndOfStream implies i == fr.len()
                    - 1 by {
                    assert(!(st.frames[i] is EndOfStream));
                }
            }
        },
        SyncOp::SendEndOfStream => {
            let fr = st.frames.push(Message::EndOfStream);
            assert forall|i: int|
                0 <= i < fr.len() && (#[trigger] fr[i]) is EndOfStream implies i == fr.len()
                - 1 by {
                if i < fr.len() - 1 {
                    assert(st.frames[i] is EndOfStream);
                }
            }
        },
        SyncOp::Draw { .. } => {},
        SyncOp::Evict { window } => {
            lemma_stale_prefix_chars(st.frames, window);
        },
        SyncOp::Pop => {},
    }
}

/// Evicting twice in a row with the same window is the same as evicting
/// once: after the first eviction the front message is no longer stale, so
/// the second pass removes nothing.
pub proof fn lemma_evict_stale_idempotent<T>(st: SyncState<T>, window: Option<(u64, u64)>)
    ensures
        st.after_evict(window).after_evict(window) == st.after_evict(window),
    decreases st.frames.len(),
{
    if st.front_is_stale(window) {
        st.lemma_evict_unfold(window);
        lemma_evict_stale_idempotent(st.after_pop(), window);
    } else {
        st.lemma_evict_noop(window);
    }
}

/// A draw decision that rendered pts `p` had `p` as its candidate, and the
/// candidate is exactly the floor.
pub proof fn lemma_rendered_is_candidate<T>(st: SyncState<T>, window: Option<(u64, u64)>, p: u64)
    requires
        st.select_for_draw(window) == DrawResult::Rendered(p),
    ensures
        candidate_pts(st) == Some(p),
        candidate_floor(st) == p,
{
}

/// Popping the front never lowers the candidate floor of a well-formed state.
proof fn lemma_pop_candidate_floor_monotone<T>(st: SyncState<T>)
    requires
        st.wf(),
    ensures
        candidate_floor(st) <= candidate_floor(st.after_pop()),
{
    if st.frames.len() > 1 {
        assert(st.frames.skip(1)[0] == st.frames[1]);
    }
}

/// No single enabled operation lowers the candidate floor of a well-formed
/// state.
pub proof fn lemma_step_candidate_floor_monotone<T>(st: SyncState<T>, op: SyncOp<T>)
    requires
        st.wf(),
        op.enabled(st),
    ensures
        candidate_floor(st) <= candidate_floor(op.step(st)),
    decreases st.frames.len(),
{
    match op {
        SyncOp::Upload { frame, pts, last_rendered_pts } => {},
        SyncOp::SendEndOfStream => {},
        SyncOp::Draw { .. } => {},
        SyncOp::Pop => {
            lemma_pop_candidate_floor_monotone(st);
        },
        SyncOp::Evict { window } => {
            if st.front_is_stale(window) {
                st.lemma_evict_unfold(window);
                lemma_step_preserves_wf(st, SyncOp::<T>::Pop);
                lemma_pop_candidate_floor_monotone(st);
                lemma_step_candidate_floor_monotone(st.after_pop(), op);
            } else {
                st.lemma_evict_noop(window);
            }
        },
    }
}

/// Along any enabled trace, well-formedness is kept and the candidate floor
/// never decreases.
pub proof fn lemma_run_candidate_floor_monotone<T>(st: SyncState<T>, ops: Seq<SyncOp<T>>)
    requires
        st.wf(),
        trace_enabled(st, ops),
    ensures
        run(st, ops).wf(),
        candidate_floor(st) <= candidate_floor(run(st, ops)),
    decreases ops.len(),
{
    if ops.len() > 0 {
        lemma_step_preserves_wf(st, ops[0]);
        lemma_step_candidate_floor_monotone(st, ops[0]);
        lemma_run_candidate_floor_monotone(ops[0].step(st), ops.skip(1));
    }
}

/// The pts a stream renders is nondecreasing across successful draws: if a
/// well-formed state renders `p1`, and after any enabled sequence of
/// operations the stream renders `p2`, then `p2` is at least `p1` — whatever
/// the two windows are.
pub proof fn lemma_rendered_pts_nondecreasing<T>(
    st: SyncState<T>,
    ops: Seq<SyncOp<T>>,
    w1: Option<(u64, u64)>,
    w2: Option<(u64, u64)>,
    p1: u64,
    p2: u64,
)
    requires
        st.wf(),
        trace_enabled(st, ops),
        st.select_for_draw(w1) == DrawResult::Rendered(p1),
        run(st, ops).select_for_draw(w2) == DrawResult::Rendered(p2),
    ensures
        p1 <= p2,
{
    lemma_rendered_is_candidate(st, w1, p1);
    lemma_run_candidate_floor_monotone(st, ops);
    lemma_rendered_is_candidate(run(st, ops), w2, p2);
}

/// Offering a frame to the queue never lowers the fallback's pts: a rejected
/// frame replaces the fallback only when strictly newer.
pub proof fn lemma_upload_fallback_monotone<T>(
    st: SyncState<T>,
    frame: T,
    pts: u64,
    last_rendered_pts: Option<u64>,
)
    ensures
        fallback_nondecreased(st, st.after_upload(frame, pts, last_rendered_pts)),
{
}

/// Neither the end-of-stream sentinel nor a draw decision touches the
/// fallback.
pub proof fn lemma_draw_and_eos_fallback_monotone<T>(st: SyncState<T>, window: Option<(u64, u64)>)
    ensures
        fallback_nondecreased(st, st.after_end_of_stream()),
        fallback_nondecreased(st, st.after_draw(window)),
{
}

/// Popping the front keeps the fallback monotone as long as the fallback is
/// no newer than the front frame — which holds whenever the fallback was
/// filled by pops and evictions alone.
pub proof fn lemma_pop_fallback_monotone<T>(st: SyncState<T>)
    requires
        st.wf(),
        fallback_at_most_front(st),
    ensures
        fallback_nondecreased(st, st.after_pop()),
{
}

/// Eviction keeps the fallback monotone under the same condition: evicted
/// frames leave the queue front-first in nondecreasing pts order, each
/// replacing the fallback with a frame at least as new.
pub proof fn lemma_evict_fallback_monotone<T>(st: SyncState<T>, window: Option<(u64, u64)>)
    requires
        st.wf(),
        fallback_at_most_front(st),
    ensures
        fallback_nondecreased(st, st.after_evict(window)),
    decreases st.frames.len(),
{
    if st.front_is_stale(window) {
        st.lemma_evict_unfold(window);
        lemma_pop_fallback_monotone(st);
        lemma_step_preserves_wf(st, SyncOp::<T>::Pop);
        let popped = st.after_pop();
        assert(fallback_at_most_front(popped)) by {
            if popped.frames.len() > 0 {
                assert(popped.frames[0] == st.frames[1]);
            }
        }
        lemma_evict_fallback_monotone(popped, window);
    } else {
        st.lemma_evict_noop(window);
    }
}

/// Before a window is established, a stream whose front is a frame always
/// renders it: a first frame with any pts is acceptable.
pub proof fn lemma_no_window_renders_front<T>(st: SyncState<T>)
    requires
        st.frames.len() > 0,
        st.frames[0] is Frame,
    ensures
        st.select_for_draw(None) == DrawResult::Rendered(st.frames[0]->pts),
        st.select_for_draw(None) !is NotRendered,
{
}

/// The grace period blocks exactly a just-added stream whose front frame
/// lies strictly beyond the window's end; a settled stream renders its front
/// frame wherever the window lies. A too-early frame blocks, a too-late one
/// never does.
pub proof fn lemma_grace_asymmetry<T>(st: SyncState<T>, start: u64, end: u64)
    requires
        st.frames.len() > 0,
        st.frames[0] is Frame,
    ensures
        st.just_added && st.frames[0]->pts > end ==> st.select_for_draw(Some((start, end)))
            == DrawResult::NotRendered,
        !(st.just_added && st.frames[0]->pts > end) ==> st.select_for_draw(Some((start, end)))
            == DrawResult::Rendered(st.frames[0]->pts),
{
}

/// A stream whose front is the end-of-stream sentinel is ready for every
/// window and reports end of stream when asked to draw.
pub proof fn lemma_end_of_stream_front<T>(st: SyncState<T>, window: Option<(u64, u64)>)
    requires
        st.frames.len() > 0,
        st.frames[0] is EndOfStream,
    ensures
        st.is_ready(window),
        st.select_for_draw(window) == DrawResult::EndOfStream,
{
}

} // verus!
