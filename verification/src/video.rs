//! One input stream of the composition: its frame queue, fallback slot,
//! grace flag, and on-canvas geometry.
//!
//! The type is generic in the frame payload `T`: the compositor core never
//! looks inside a frame, it only decides which one each output tick shows.
//! Every method's contract is stated against the abstract
//! [`SyncState`](crate::sync::SyncState) reached through the type's view.

use vstd::prelude::*;

use std::collections::VecDeque;

use crate::props::{chain_valid, spec_apply_chain, apply_chain, TransformationUniform,
    VideoProperties};
use crate::sync::{DrawResult, Message, SyncState};

verus! {

broadcast use vstd::std_specs::vecdeque::group_vec_dequeue_axioms;

/// One video stream: pending frames in arrival order, the most recently
/// evicted-or-consumed frame as a fallback, the one-way grace flag, and the
/// stream's current geometry.
#[derive(Debug)]
pub struct InputVideo<T> {
    frames: VecDeque<Message<T>>,
    properties: VideoProperties,
    texture_transformations: Vec<TransformationUniform>,
    previous_frame: Option<Message<T>>,
    was_just_added: bool,
}

impl<T> View for InputVideo<T> {
    type V = SyncState<T>;

    closed spec fn view(&self) -> SyncState<T> {
        SyncState {
            frames: self.frames@,
            fallback: self.previous_frame,
            just_added: self.was_just_added,
        }
    }
}

impl<T> InputVideo<T> {
    /// The stream's current on-canvas geometry, before transformations.
    pub closed spec fn spec_properties(self) -> VideoProperties {
        self.properties
    }

    /// The stream's transformation chain, in declaration order.
    pub closed spec fn spec_transformations(self) -> Seq<TransformationUniform> {
        self.texture_transformations@
    }

    /// The synchronization state is well formed and every transformation of
    /// the chain is meaningful.
    pub open spec fn wf(self) -> bool {
        &&& self@.wf()
        &&& chain_valid(self.spec_transformations())
    }

    /// Creates a stream with an empty queue, no fallback, and the grace flag
    /// set: a freshly added stream has drawn nothing yet and must not be
    /// judged late before its first frame arrives.
    pub fn new(properties: VideoProperties, texture_transformations: Vec<
        TransformationUniform>) -> (v: Self)
        requires
            chain_valid(texture_transformations@),
        ensures
            v.wf(),
            v@ == (SyncState::<T> { frames: Seq::empty(), fallback: None, just_added: true }),
            v.spec_properties() == properties,
            v.spec_transformations() == texture_transformations@,
    {
        let v = InputVideo {
            frames: VecDeque::new(),
            properties,
            texture_transformations,
            previous_frame: None,
            was_just_added: true,
        };
        assert(v@ =~= SyncState::<T> { frames: Seq::empty(), fallback: None, just_added: true });
        v
    }

    /// Replaces the stream's geometry, and its transformation chain when a
    /// new one is given; the synchronization state is untouched.
    pub fn update_properties(
        &mut self,
        properties: VideoProperties,
        texture_transformations: Option<Vec<TransformationUniform>>,
    )
        requires
            old(self).wf(),
            texture_transformations matches Some(ts) ==> chain_valid(ts@),
        ensures
            final(self).wf(),
            final(self)@ == old(self)@,
            final(self).spec_properties() == properties,
            final(self).spec_transformations() == (match texture_transformations {
                Some(ts) => ts@,
                None => old(self).spec_transformations(),
            }),
    {
        self.properties = properties;
        match texture_transformations {
            Some(ts) => {
                self.texture_transformations = ts;
            },
            None => {},
        }
    }

    /// Folds the transformation chain over `properties` in declaration order
    /// and returns the final properties: the layout every stage after the
    /// chain must use.
    pub fn update_texture_transformations(
        properties: VideoProperties,
        texture_transformations: &Vec<TransformationUniform>,
    ) -> (r: VideoProperties)
        requires
            chain_valid(texture_transformations@),
        ensures
            r == spec_apply_chain(texture_transformations@, properties),
    {
        apply_chain(texture_transformations, properties)
    }

    /// The stream's geometry after its transformation chain: the destination
    /// rectangle the renderer uses for this stream.
    pub fn transformed_properties(&self) -> (r: VideoProperties)
        requires
            self.wf(),
        ensures
            r == spec_apply_chain(self.spec_transformations(), self.spec_properties()),
    {
        apply_chain(&self.texture_transformations, self.properties)
    }

    /// The stream's current on-canvas geometry, before transformations.
    pub fn properties(&self) -> (r: &VideoProperties)
        ensures
            *r == self.spec_properties(),
    {
        &self.properties
    }

    /// Offers a processed frame to the queue. A frame strictly ahead of the
    /// last rendered pts (or any frame while nothing has been rendered) is
    /// appended; one already superseded by what has been shown is dropped,
    /// except that it replaces the fallback when strictly newer than it, so
    /// the fallback always holds the most advanced frame available below the
    /// last-shown pts.
    pub fn upload_data(&mut self, frame: T, pts: u64, last_rendered_pts: Option<u64>)
        requires
            old(self).wf(),
            !old(self)@.has_end_of_stream(),
            old(self)@.admits_pts(pts),
        ensures
            final(self).wf(),
            final(self)@ == old(self)@.after_upload(frame, pts, last_rendered_pts),
            final(self).spec_properties() == old(self).spec_properties(),
            final(self).spec_transformations() == old(self).spec_transformations(),
    {
        let accept: bool = match last_rendered_pts {
            None => true,
            Some(last) => pts > last,
        };
        if accept {
            self.frames.push_back(Message::Frame { pts, frame });
            assert forall|i: int| 0 <= i < self@.frames.len() && #[trigger] self@.frames[i]
                is EndOfStream implies i == self@.frames.len() - 1 by {
                assert(!(old(self)@.frames[i] is EndOfStream));
            }
        } else {
            let replace: bool = match &self.previous_frame {
                Some(Message::Frame { pts: prev_pts, .. }) => *prev_pts < pts,
                _ => false,
            };
            if replace {
                self.previous_frame = Some(Message::Frame { pts, frame });
            }
        }
    }

    /// Appends the end-of-stream sentinel; by contract it is sent once, so
    /// the sentinel is always the logical tail of the queue.
    pub fn send_end_of_stream(&mut self)
        requires
            old(self).wf(),
            !old(self)@.has_end_of_stream(),
        ensures
            final(self).wf(),
            final(self)@ == old(self)@.after_end_of_stream(),
            final(self).spec_properties() == old(self).spec_properties(),
            final(self).spec_transformations() == old(self).spec_transformations(),
    {
        self.frames.push_back(Message::EndOfStream);
        assert forall|i: int, j: int|
            0 <= i < j < self@.frames.len() && self@.frames[i] is Frame && self@.frames[j]
                is Frame implies #[trigger] self@.frames[i]->pts <= #[trigger] self@.frames[j]->pts by {
            assert(old(self)@.frames[i] == self@.frames[i]);
        }
    }

    /// The pts of the front message, when the front is a frame.
    pub fn front_pts(&self) -> (r: Option<u64>)
        ensures
            r == self@.front_pts(),
    {
        if self.frames.len() > 0 {
            match &self.frames[0] {
                Message::Frame { pts, .. } => Some(*pts),
                Message::EndOfStream => None,
            }
        } else {
            None
        }
    }

    /// Whether this stream can contribute to an output frame covering
    /// `interval`: its front message is the end-of-stream sentinel, or its
    /// front frame falls into the window, or no window exists yet, or the
    /// stream is still in its grace period. An empty queue is never ready.
    pub fn is_frame_ready(&self, interval: Option<(u64, u64)>) -> (r: bool)
        ensures
            r == self@.is_ready(interval),
    {
        if self.frames.len() == 0 {
            return false;
        }
        match &self.frames[0] {
            Message::EndOfStream => true,
            Message::Frame { pts, .. } => {
                match interval {
                    None => true,
                    Some((start, end)) => (start <= *pts && *pts <= end) || self.was_just_added,
                }
            },
        }
    }

    /// The draw decision for `frame_interval`, without committing it: the
    /// stream is left untouched, so a scheduler can inspect every stream's
    /// outcome before mutating any of them.
    pub fn select_for_draw(&self, frame_interval: Option<(u64, u64)>) -> (r: DrawResult)
        ensures
            r == self@.select_for_draw(frame_interval),
    {
        if self.frames.len() > 0 {
            match &self.frames[0] {
                Message::Frame { pts, .. } => {
                    let blocked: bool = match frame_interval {
                        Some((_, end)) => *pts > end && self.was_just_added,
                        None => false,
                    };
                    if blocked {
                        DrawResult::NotRendered
                    } else {
                        DrawResult::Rendered(*pts)
                    }
                },
                Message::EndOfStream => DrawResult::EndOfStream,
            }
        } else {
            match &self.previous_frame {
                Some(Message::Frame { pts, .. }) => DrawResult::Rendered(*pts),
                Some(Message::EndOfStream) => DrawResult::EndOfStream,
                None => DrawResult::NotRendered,
            }
        }
    }

    /// The draw decision for `frame_interval`, clearing the grace flag when a
    /// frame is rendered. Selection never removes a frame from the queue:
    /// removal is driven only by eviction, so the same frame can be drawn
    /// again while it remains the best candidate.
    pub fn draw(&mut self, frame_interval: Option<(u64, u64)>) -> (r: DrawResult)
        requires
            old(self).wf(),
        ensures
            final(self).wf(),
            r == old(self)@.select_for_draw(frame_interval),
            final(self)@ == old(self)@.after_draw(frame_interval),
            final(self).spec_properties() == old(self).spec_properties(),
            final(self).spec_transformations() == old(self).spec_transformations(),
    {
        let r: DrawResult;
        if self.frames.len() > 0 {
            match &self.frames[0] {
                Message::Frame { pts, .. } => {
                    let blocked: bool = match frame_interval {
                        Some((_, end)) => *pts > end && self.was_just_added,
                        None => false,
                    };
                    if blocked {
                        r = DrawResult::NotRendered;
                    } else {
                        r = DrawResult::Rendered(*pts);
                    }
                },
                Message::EndOfStream => {
                    r = DrawResult::EndOfStream;
                },
            }
        } else {
            match &self.previous_frame {
                Some(Message::Frame { pts, .. }) => {
                    r = DrawResult::Rendered(*pts);
                },
                Some(Message::EndOfStream) => {
                    r = DrawResult::EndOfStream;
                },
                None => {
                    r = DrawResult::NotRendered;
                },
            }
        }
        if let DrawResult::Rendered(_) = r {
            self.was_just_added = false;
        }
        r
    }

    /// The frame payload the draw decision for `frame_interval` selects, as a
    /// non-owning reference for the duration of the draw call: the frame
    /// itself stays owned by the queue or the fallback slot.
    pub fn selected_frame(&self, frame_interval: Option<(u64, u64)>) -> (r: Option<&T>)
        ensures
            match r {
                Some(f) => self@.selected_frame(frame_interval) == Some(*f),
                None => self@.selected_frame(frame_interval) is None,
            },
    {
        if self.frames.len() > 0 {
            match &self.frames[0] {
                Message::Frame { pts, frame } => {
                    let blocked: bool = match frame_interval {
                        Some((_, end)) => *pts > end && self.was_just_added,
                        None => false,
                    };
                    if blocked {
                        None
                    } else {
                        Some(frame)
                    }
                },
                Message::EndOfStream => None,
            }
        } else {
            match &self.previous_frame {
                Some(Message::Frame { frame, .. }) => Some(frame),
                _ => None,
            }
        }
    }

    /// Pops the front message: a popped frame becomes the fallback (it is the
    /// most recently consumed frame); a popped sentinel is discarded.
    pub fn pop_frame(&mut self)
        requires
            old(self).wf(),
        ensures
            final(self).wf(),
            final(self)@ == old(self)@.after_pop(),
            final(self).spec_properties() == old(self).spec_properties(),
            final(self).spec_transformations() == old(self).spec_transformations(),
    {
        if let Some(msg) = self.frames.pop_front() {
            if let Message::Frame { pts, frame } = msg {
                self.previous_frame = Some(Message::Frame { pts, frame });
            }
        }
    }

    /// Whether the front message is a frame that has fallen strictly behind
    /// the window's start; the end-of-stream sentinel is never too old.
    pub fn is_front_frame_too_old(&self, interval: Option<(u64, u64)>) -> (r: bool)
        ensures
            r == self@.front_is_stale(interval),
    {
        if self.frames.len() == 0 {
            return false;
        }
        match &self.frames[0] {
            Message::EndOfStream => false,
            Message::Frame { pts, .. } => {
                match interval {
                    Some((start, _)) => start > *pts,
                    None => false,
                }
            },
        }
    }

    /// Evicts every leading frame that has fallen strictly behind the
    /// window's start, moving each into the fallback slot in turn; eviction
    /// stops at the first non-stale message and never removes the
    /// end-of-stream sentinel.
    pub fn remove_stale_frames(&mut self, interval: Option<(u64, u64)>)
        requires
            old(self).wf(),
        ensures
            final(self).wf(),
            final(self)@ == old(self)@.after_evict(interval),
            final(self).spec_properties() == old(self).spec_properties(),
            final(self).spec_transformations() == old(self).spec_transformations(),
    {
        while self.is_front_frame_too_old(interval)
            invariant
                self.wf(),
                self@.after_evict(interval) == old(self)@.after_evict(interval),
                self.spec_properties() == old(self).spec_properties(),
                self.spec_transformations() == old(self).spec_transformations(),
            decreases self@.frames.len(),
        {
            proof {
                self@.lemma_evict_unfold(interval);
            }
            self.pop_frame();
        }
        proof {
            self@.lemma_evict_noop(interval);
        }
    }
}

} // verus!
