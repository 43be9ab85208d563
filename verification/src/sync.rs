//! The mathematical model of one stream's synchronization state.
//!
//! A stream buffers its pending decoded frames, tagged with presentation
//! timestamps (pts), in arrival order. Beside the queue it keeps a fallback
//! slot holding the most recently evicted-or-consumed frame, and a one-way
//! grace flag that is true from stream creation until the stream's first
//! successful draw. [`SyncState`] captures exactly this, and the spec
//! functions here define the enqueue, readiness, selection and eviction
//! policies that the executable type in [`crate::video`] is proved to follow.

use vstd::prelude::*;

verus! {

/// One message of a stream's queue: either a fully processed frame tagged
/// with its presentation timestamp, or the end-of-stream sentinel, enqueued
/// once, after which no further frames arrive.
#[derive(Debug)]
pub enum Message<T> {
    Frame { pts: u64, frame: T },
    EndOfStream,
}

/// The outcome of asking one stream for its contribution to an output frame.
#[derive(Debug, Clone, Copy, PartialEq, Eq, Structural)]
pub enum DrawResult {
    /// A frame was selected; carries the pts of that frame.
    Rendered(u64),
    /// The stream contributes nothing to this output frame.
    NotRendered,
    /// The stream has ended.
    EndOfStream,
}

/// The abstract state of one stream's synchronizer: the queued messages in
/// arrival order, the fallback slot, and the grace flag.
#[verifier::ext_equal]
pub struct SyncState<T> {
    /// Pending messages, oldest first.
    pub frames: Seq<Message<T>>,
    /// The most recently evicted-or-consumed frame, used only when the queue
    /// holds no usable frame; never the end-of-stream sentinel.
    pub fallback: Option<Message<T>>,
    /// True from stream creation until the first successful draw; never reset.
    pub just_added: bool,
}

impl<T> SyncState<T> {
    /// The queue holds frames in nondecreasing pts order, the end-of-stream
    /// sentinel can only be its last message, and the fallback slot never
    /// holds the sentinel.
    pub open spec fn wf(self) -> bool {
        &&& (forall|i: int, j: int|
            0 <= i < j < self.frames.len() && self.frames[i] is Frame && self.frames[j] is Frame
                ==> #[trigger] self.frames[i]->pts <= #[trigger] self.frames[j]->pts)
        &&& (forall|i: int|
            0 <= i < self.frames.len() && #[trigger] self.frames[i] is EndOfStream ==> i
                == self.frames.len() - 1)
        &&& (self.fallback matches Some(m) ==> m is Frame)
    }

    /// Whether the queue already holds the end-of-stream sentinel.
    pub open spec fn has_end_of_stream(self) -> bool {
        exists|i: int| 0 <= i < self.frames.len() && #[trigger] self.frames[i] is EndOfStream
    }

    /// The pts of the front message, when the front is a frame.
    pub open spec fn front_pts(self) -> Option<u64> {
        if self.frames.len() > 0 && self.frames[0] is Frame {
            Some(self.frames[0]->pts)
        } else {
            None
        }
    }

    /// The pts of the fallback frame, when one is held.
    pub open spec fn fallback_pts(self) -> Option<u64> {
        match self.fallback {
            Some(m) => if m is Frame {
                Some(m->pts)
            } else {
                None
            },
            None => None,
        }
    }

    /// Whether a frame with timestamp `pts` is accepted into the queue: it is
    /// when nothing has been rendered yet, or when the frame is strictly
    /// ahead of the last rendered pts.
    pub open spec fn accepts_frame(pts: u64, last_rendered_pts: Option<u64>) -> bool {
        match last_rendered_pts {
            None => true,
            Some(last) => pts > last,
        }
    }

    /// The state after offering `(pts, frame)` to the queue, with
    /// `last_rendered_pts` the pts of the most recently rendered output.
    /// An accepted frame is appended; a rejected one is dropped, except that
    /// it replaces the fallback when it is strictly newer than the held
    /// fallback frame.
    pub open spec fn after_upload(self, frame: T, pts: u64, last_rendered_pts: Option<u64>) -> Self {
        if Self::accepts_frame(pts, last_rendered_pts) {
            SyncState { frames: self.frames.push(Message::Frame { pts, frame }), ..self }
        } else {
            match self.fallback {
                Some(m) => if m is Frame && m->pts < pts {
                    SyncState { fallback: Some(Message::Frame { pts, frame }), ..self }
                } else {
                    self
                },
                None => self,
            }
        }
    }

    /// The state after the end-of-stream sentinel is enqueued.
    pub open spec fn after_end_of_stream(self) -> Self {
        SyncState { frames: self.frames.push(Message::EndOfStream), ..self }
    }

    /// Whether this stream can contribute to an output frame covering
    /// `window`: its front message is the end-of-stream sentinel, or its
    /// front frame falls into the window, or no window exists yet (the very
    /// first output frame), or the stream is still in its grace period.
    /// An empty queue is never ready.
    pub open spec fn is_ready(self, window: Option<(u64, u64)>) -> bool {
        if self.frames.len() == 0 {
            false
        } else if self.frames[0] is EndOfStream {
            true
        } else {
            match window {
                None => true,
                Some(w) => (w.0 <= self.frames[0]->pts && self.frames[0]->pts <= w.1)
                    || self.just_added,
            }
        }
    }

    /// The draw decision for `window`. The front frame is selected unless the
    /// stream is still in its grace period and its front frame lies strictly
    /// beyond the window's end (a just-added stream must not flash a future
    /// frame ahead of schedule). With an empty queue the fallback frame is
    /// selected when one is held. The end-of-stream sentinel at the front is
    /// reported as such. Selection never removes a frame from the queue.
    pub open spec fn select_for_draw(self, window: Option<(u64, u64)>) -> DrawResult {
        if self.frames.len() > 0 {
            match self.frames[0] {
                Message::Frame { pts, .. } => {
                    if (window matches Some(w) && pts > w.1) && self.just_added {
                        DrawResult::NotRendered
                    } else {
                        DrawResult::Rendered(pts)
                    }
                },
                Message::EndOfStream => DrawResult::EndOfStream,
            }
        } else {
            match self.fallback {
                Some(m) => match m {
                    Message::Frame { pts, .. } => DrawResult::Rendered(pts),
                    Message::EndOfStream => DrawResult::EndOfStream,
                },
                None => DrawResult::NotRendered,
            }
        }
    }

    /// The frame payload the draw decision selects, when it selects one.
    pub open spec fn selected_frame(self, window: Option<(u64, u64)>) -> Option<T> {
        if self.frames.len() > 0 {
            match self.frames[0] {
                Message::Frame { pts, frame } => {
                    if (window matches Some(w) && pts > w.1) && self.just_added {
                        None
                    } else {
                        Some(frame)
                    }
                },
                Message::EndOfStream => None,
            }
        } else {
            match self.fallback {
                Some(m) => match m {
                    Message::Frame { frame, .. } => Some(frame),
                    Message::EndOfStream => None,
                },
                None => None,
            }
        }
    }

    /// The state after a draw decision for `window`: the queue and fallback
    /// are untouched, and the grace flag is cleared exactly when a frame was
    /// rendered (the stream's first successful draw ends the grace period).
    pub open spec fn after_draw(self, window: Option<(u64, u64)>) -> Self {
        SyncState {
            just_added: self.just_added && !(self.select_for_draw(window) is Rendered),
            ..self
        }
    }

    /// The state after popping the front message: a popped frame moves into
    /// the fallback slot; a popped sentinel is discarded; an empty queue is
    /// left as it is.
    pub open spec fn after_pop(self) -> Self {
        if self.frames.len() > 0 {
            match self.frames[0] {
                Message::Frame { .. } => SyncState {
                    frames: self.frames.skip(1),
                    fallback: Some(self.frames[0]),
                    ..self
                },
                Message::EndOfStream => SyncState { frames: self.frames.skip(1), ..self },
            }
        } else {
            self
        }
    }

    /// Whether the front message is a frame that has fallen strictly behind
    /// the window's start. Only such frames are evicted; the end-of-stream
    /// sentinel never is.
    pub open spec fn front_is_stale(self, window: Option<(u64, u64)>) -> bool {
        &&& self.frames.len() > 0
        &&& self.frames[0] is Frame
        &&& window matches Some(w) && self.frames[0]->pts < w.0
    }

    /// How many leading frames of `frames` are stale for `window`.
    pub open spec fn stale_prefix_len(frames: Seq<Message<T>>, window: Option<(u64, u64)>) -> int
        decreases frames.len(),
    {
        if frames.len() > 0 && frames[0] is Frame && (window matches Some(w) && frames[0]->pts
            < w.0) {
            1 + Self::stale_prefix_len(frames.skip(1), window)
        } else {
            0
        }
    }

    /// The state after evicting every leading stale frame: those frames leave
    /// the queue and the last of them becomes the fallback (popped-in-order
    /// frames are nondecreasing in pts). Nothing else changes.
    pub open spec fn after_evict(self, window: Option<(u64, u64)>) -> Self {
        let k = Self::stale_prefix_len(self.frames, window);
        if k > 0 {
            SyncState {
                frames: self.frames.skip(k),
                fallback: Some(self.frames[k - 1]),
                ..self
            }
        } else {
            self
        }
    }

    /// The guarantee the decoder gives for a newly delivered timestamp: per
    /// stream, pts never decreases, so a new frame's pts is at least every
    /// queued frame's pts and at least the fallback's pts.
    pub open spec fn admits_pts(self, pts: u64) -> bool {
        &&& (forall|i: int|
            0 <= i < self.frames.len() && (#[trigger] self.frames[i]) is Frame
                ==> self.frames[i]->pts <= pts)
        &&& (self.fallback_pts() matches Some(f) ==> f <= pts)
    }

    /// The count of leading stale frames never exceeds the queue's length.
    pub proof fn lemma_stale_prefix_len_bounds(frames: Seq<Message<T>>, window: Option<(u64, u64)>)
        ensures
            0 <= Self::stale_prefix_len(frames, window) <= frames.len(),
        decreases frames.len(),
    {
        if frames.len() > 0 && frames[0] is Frame && (window matches Some(w) && frames[0]->pts
            < w.0) {
            Self::lemma_stale_prefix_len_bounds(frames.skip(1), window);
        }
    }

    /// Evicting all leading stale frames is the same as popping one stale
    /// front frame and then evicting the rest: the loop that pops one frame
    /// at a time realizes the eviction policy.
    pub proof fn lemma_evict_unfold(self, window: Option<(u64, u64)>)
        requires
            self.front_is_stale(window),
        ensures
            self.after_evict(window) == self.after_pop().after_evict(window),
    {
        Self::lemma_stale_prefix_len_bounds(self.frames, window);
        Self::lemma_stale_prefix_len_bounds(self.frames.skip(1), window);
        let k = Self::stale_prefix_len(self.frames, window);
        let k2 = Self::stale_prefix_len(self.frames.skip(1), window);
        assert(k == 1 + k2);
        if k2 > 0 {
            assert(self.frames.skip(1).skip(k2) =~= self.frames.skip(k));
            assert(self.frames.skip(1)[k2 - 1] == self.frames[k - 1]);
            assert(self.after_evict(window) =~= self.after_pop().after_evict(window));
        } else {
            assert(self.after_evict(window) =~= self.after_pop().after_evict(window));
        }
    }

    /// A state whose front is not stale is left unchanged by eviction.
    pub proof fn lemma_evict_noop(self, window: Option<(u64, u64)>)
        requires
            !self.front_is_stale(window),
        ensures
            self.after_evict(window) == self,
    {
    }
}

} // verus!
