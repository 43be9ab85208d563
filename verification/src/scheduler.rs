//! The composition scheduler: once per output tick it drives every active
//! stream in a stable order.
//!
//! A tick first asks every stream whether it is ready for the current output
//! window; if any stream is not, the tick aborts untouched and is retried
//! later — the scheduler never produces a partial composite, so one slow
//! stream delays the whole output. Once all streams are ready, the draw
//! decision of each is collected in insertion order, stale frames are
//! evicted, and the last rendered pts advances to the window's end.

use vstd::prelude::*;

use crate::props::{chain_valid, TransformationUniform, VideoProperties};
use crate::sync::{DrawResult, SyncState};
use crate::video::InputVideo;

verus! {

/// An opaque handle identifying one input stream, stable for the stream's
/// lifetime.
#[derive(Debug, Clone, Copy, PartialEq, Eq, Hash, Structural)]
pub struct StreamId(pub u64);

/// The errors the scheduler surfaces to its caller.
///
/// An out-of-order frame is not among them: it is recovered locally by the
/// enqueue policy (dropped, or kept as the fallback), never surfaced. Nor is
/// a stream that is not ready: that is a normal scheduling signal, reported
/// as [`TickResult::NotReady`].
#[derive(Debug, Clone, Copy, PartialEq, Eq, Structural)]
pub enum CompositorError {
    /// An operation referenced a stream that is absent or was removed: a
    /// contract violation by the caller.
    UnknownStream,
    /// The scheduler was asked to render while no stream had anything to
    /// show — no queued frame and no prior frame for any of them. The caller
    /// decides whether to emit an empty frame instead.
    EmptyCompositeAttempt,
}

/// The outcome of one scheduler tick.
#[derive(Debug, PartialEq, Eq)]
pub enum TickResult {
    /// Some stream is not ready for this window; nothing was drawn or
    /// evicted, and the tick should be retried later.
    NotReady,
    /// All streams were ready; carries each stream's draw outcome in
    /// insertion order.
    Composited(Vec<DrawResult>),
    /// Every stream has reported end-of-stream: the composition is over.
    AllEnded,
}

/// Whether some entry of `s` carries the id.
pub open spec fn spec_contains<T>(s: Seq<(StreamId, InputVideo<T>)>, id: StreamId) -> bool {
    exists|i: int| 0 <= i < s.len() && (#[trigger] s[i]).0 == id
}

/// Whether the ids of `s` are pairwise distinct.
pub open spec fn ids_unique<T>(s: Seq<(StreamId, InputVideo<T>)>) -> bool {
    forall|i: int, j: int|
        0 <= i < j < s.len() ==> (#[trigger] s[i]).0 != (#[trigger] s[j]).0
}

/// Whether every stream of `s` is ready for `window`.
pub open spec fn all_ready<T>(s: Seq<(StreamId, InputVideo<T>)>, window: Option<(u64, u64)>) -> bool {
    forall|i: int| 0 <= i < s.len() ==> (#[trigger] s[i]).1@.is_ready(window)
}

/// Each stream's draw decision for `window`, in insertion order.
pub open spec fn spec_results<T>(
    s: Seq<(StreamId, InputVideo<T>)>,
    window: Option<(u64, u64)>,
) -> Seq<DrawResult> {
    Seq::new(s.len(), |i: int| s[i].1@.select_for_draw(window))
}

/// Whether no stream contributed anything: every outcome is `NotRendered`.
pub open spec fn all_not_rendered(rs: Seq<DrawResult>) -> bool {
    forall|i: int| 0 <= i < rs.len() ==> (#[trigger] rs[i]) is NotRendered
}

/// Whether every stream has ended.
pub open spec fn all_ended(rs: Seq<DrawResult>) -> bool {
    forall|i: int| 0 <= i < rs.len() ==> (#[trigger] rs[i]) is EndOfStream
}

/// Whether at least one stream rendered a frame.
pub open spec fn any_rendered(rs: Seq<DrawResult>) -> bool {
    exists|i: int| 0 <= i < rs.len() && (#[trigger] rs[i]) is Rendered
}

/// Drives all active streams once per output tick: readiness gate, draw
/// decisions in insertion order, then stale-frame eviction.
pub struct CompositionScheduler<T> {
    videos: Vec<(StreamId, InputVideo<T>)>,
    last_rendered_pts: Option<u64>,
}

impl<T> CompositionScheduler<T> {
    /// The active streams, in insertion order.
    pub closed spec fn spec_videos(self) -> Seq<(StreamId, InputVideo<T>)> {
        self.videos@
    }

    /// The end of the most recent window a frame was rendered for, `None`
    /// before the first rendered output frame.
    pub closed spec fn spec_last_rendered(self) -> Option<u64> {
        self.last_rendered_pts
    }

    /// Every stream is well formed and stream ids are pairwise distinct.
    pub open spec fn wf(self) -> bool {
        &&& ids_unique(self.spec_videos())
        &&& forall|i: int|
            0 <= i < self.spec_videos().len() ==> (#[trigger] self.spec_videos()[i]).1.wf()
    }

    /// Creates a scheduler with no streams and nothing rendered yet.
    pub fn new() -> (s: Self)
        ensures
            s.wf(),
            s.spec_videos() =~= Seq::<(StreamId, InputVideo<T>)>::empty(),
            s.spec_last_rendered() is None,
    {
        CompositionScheduler { videos: Vec::new(), last_rendered_pts: None }
    }

    /// How many streams are active.
    pub fn stream_count(&self) -> (n: usize)
        ensures
            n == self.spec_videos().len(),
    {
        self.videos.len()
    }

    /// Whether a stream with this id is active.
    pub fn contains_stream(&self, id: StreamId) -> (r: bool)
        ensures
            r == spec_contains(self.spec_videos(), id),
    {
        match self.find_index(id) {
            Some(_) => true,
            None => false,
        }
    }

    /// The end of the most recent window a frame was rendered for.
    pub fn last_rendered_pts(&self) -> (r: Option<u64>)
        ensures
            r == self.spec_last_rendered(),
    {
        self.last_rendered_pts
    }

    /// A view of the stream under `id`, for reading its front frame, its
    /// geometry, or the frame its draw decision selects.
    pub fn video(&self, id: StreamId) -> (r: Option<&InputVideo<T>>)
        ensures
            match r {
                Some(v) => exists|i: int|
                    0 <= i < self.spec_videos().len() && (#[trigger] self.spec_videos()[i]) == (
                    id,
                    *v,
                ),
                None => !spec_contains(self.spec_videos(), id),
            },
    {
        match self.find_index(id) {
            Some(i) => {
                let entry = &self.videos[i];
                assert(self.spec_videos()[i as int] == (id, entry.1));
                Some(&entry.1)
            },
            None => None,
        }
    }

    /// The position of the stream with this id, if it is active.
    fn find_index(&self, id: StreamId) -> (r: Option<usize>)
        ensures
            match r {
                Some(i) => i < self.spec_videos().len() && self.spec_videos()[i as int].0 == id,
                None => !spec_contains(self.spec_videos(), id),
            },
    {
        let mut i: usize = 0;
        while i < self.videos.len()
            invariant
                0 <= i <= self.spec_videos().len(),
                forall|k: int| 0 <= k < i ==> (#[trigger] self.spec_videos()[k]).0 != id,
            decreases self.spec_videos().len() - i,
        {
            if self.videos[i].0 == id {
                return Some(i);
            }
            i = i + 1;
        }
        None
    }

    /// Adds a stream under `id` with a fresh synchronizer: empty queue, no
    /// fallback, grace flag set. Re-adding an existing id resets that stream
    /// in place, keeping its position in the draw order.
    pub fn add_video(
        &mut self,
        id: StreamId,
        properties: VideoProperties,
        texture_transformations: Vec<TransformationUniform>,
    )
        requires
            old(self).wf(),
            chain_valid(texture_transformations@),
        ensures
            final(self).wf(),
            final(self).spec_last_rendered() == old(self).spec_last_rendered(),
            spec_contains(final(self).spec_videos(), id),
            // the stream under `id` is freshly created
            forall|i: int|
                0 <= i < final(self).spec_videos().len() && (#[trigger] final(self).spec_videos()[i]).0 == id ==> {
                    &&& final(self).spec_videos()[i].1@ == (SyncState::<T> {
                        frames: Seq::empty(),
                        fallback: None,
                        just_added: true,
                    })
                    &&& final(self).spec_videos()[i].1.spec_properties() == properties
                    &&& final(self).spec_videos()[i].1.spec_transformations()
                        == texture_transformations@
                },
            // a known id is replaced in place, a new one appended
            if spec_contains(old(self).spec_videos(), id) {
                &&& final(self).spec_videos().len() == old(self).spec_videos().len()
                &&& forall|i: int|
                    0 <= i < old(self).spec_videos().len() ==> (#[trigger] final(self).spec_videos()[i]).0 == old(self).spec_videos()[i].0
                &&& forall|i: int|
                    0 <= i < old(self).spec_videos().len() && (#[trigger] old(self).spec_videos()[i]).0 != id ==> final(self).spec_videos()[i] == old(self).spec_videos()[i]
            } else {
                &&& final(self).spec_videos().len() == old(self).spec_videos().len() + 1
                &&& forall|i: int|
                    0 <= i < old(self).spec_videos().len() ==> (#[trigger] final(self).spec_videos()[i]) == old(self).spec_videos()[i]
                &&& final(self).spec_videos().last().0 == id
            },
    {
        let fresh: InputVideo<T> = InputVideo::new(properties, texture_transformations);
        match self.find_index(id) {
            Some(i) => {
                let _old_entry = self.videos.remove(i);
                self.videos.insert(i, (id, fresh));
                assert(self.videos@ =~= old(self).videos@.update(i as int, (id, fresh)));
                assert(self.videos@[i as int].0 == id);
            },
            None => {
                self.videos.push((id, fresh));
                assert(self.videos@[self.videos@.len() - 1].0 == id);
            },
        }
    }

    /// Removes the stream under `id`, releasing every frame it still owns;
    /// the other streams keep their relative order.
    pub fn remove_video(&mut self, id: StreamId) -> (r: Result<(), CompositorError>)
        requires
            old(self).wf(),
        ensures
            final(self).wf(),
            final(self).spec_last_rendered() == old(self).spec_last_rendered(),
            r is Ok <==> spec_contains(old(self).spec_videos(), id),
            r matches Err(e) ==> e == CompositorError::UnknownStream && final(self).spec_videos()
                == old(self).spec_videos(),
            r is Ok ==> exists|i: int|
                {
                    &&& 0 <= i < old(self).spec_videos().len()
                    &&& (#[trigger] old(self).spec_videos()[i]).0 == id
                    &&& final(self).spec_videos() == old(self).spec_videos().remove(i)
                },
    {
        match self.find_index(id) {
            Some(i) => {
                let _removed = self.videos.remove(i);
                Ok(())
            },
            None => Err(CompositorError::UnknownStream),
        }
    }

    /// Offers a processed frame to the stream under `id`, judging it against
    /// the pts last rendered by the whole composition: a superseded frame is
    /// dropped or kept as that stream's fallback.
    pub fn upload_frame(&mut self, id: StreamId, frame: T, pts: u64) -> (r: Result<
        (),
        CompositorError,
    >)
        requires
            old(self).wf(),
            // the decoder delivers nondecreasing pts and nothing after end of stream
            forall|i: int|
                0 <= i < old(self).spec_videos().len() && (#[trigger] old(self).spec_videos()[i]).0 == id ==> !old(self).spec_videos()[i].1@.has_end_of_stream()
                    && old(self).spec_videos()[i].1@.admits_pts(pts),
        ensures
            final(self).wf(),
            final(self).spec_last_rendered() == old(self).spec_last_rendered(),
            r is Ok <==> spec_contains(old(self).spec_videos(), id),
            r matches Err(e) ==> e == CompositorError::UnknownStream && final(self).spec_videos()
                == old(self).spec_videos(),
            final(self).spec_videos().len() == old(self).spec_videos().len(),
            forall|i: int|
                0 <= i < old(self).spec_videos().len() && (#[trigger] old(self).spec_videos()[i]).0 != id ==> final(self).spec_videos()[i] == old(self).spec_videos()[i],
            forall|i: int|
                0 <= i < old(self).spec_videos().len() && (#[trigger] old(self).spec_videos()[i]).0 == id ==> {
                    &&& final(self).spec_videos()[i].0 == id
                    &&& final(self).spec_videos()[i].1@ == old(self).spec_videos()[i].1@.after_upload(frame, pts, old(self).spec_last_rendered())
                    &&& final(self).spec_videos()[i].1.spec_properties() == old(self).spec_videos()[i].1.spec_properties()
                    &&& final(self).spec_videos()[i].1.spec_transformations() == old(self).spec_videos()[i].1.spec_transformations()
                },
    {
        match self.find_index(id) {
            Some(i) => {
                let (sid, mut v) = self.videos.remove(i);
                v.upload_data(frame, pts, self.last_rendered_pts);
                self.videos.insert(i, (sid, v));
                assert(self.videos@ =~= old(self).videos@.update(i as int, (sid, v)));
                Ok(())
            },
            None => Err(CompositorError::UnknownStream),
        }
    }

    /// Enqueues the end-of-stream sentinel for the stream under `id`.
    pub fn send_end_of_stream(&mut self, id: StreamId) -> (r: Result<(), CompositorError>)
        requires
            old(self).wf(),
            // the sentinel is sent at most once per stream
            forall|i: int|
                0 <= i < old(self).spec_videos().len() && (#[trigger] old(self).spec_videos()[i]).0 == id ==> !old(self).spec_videos()[i].1@.has_end_of_stream(),
        ensures
            final(self).wf(),
            final(self).spec_last_rendered() == old(self).spec_last_rendered(),
            r is Ok <==> spec_contains(old(self).spec_videos(), id),
            r matches Err(e) ==> e == CompositorError::UnknownStream && final(self).spec_videos()
                == old(self).spec_videos(),
            final(self).spec_videos().len() == old(self).spec_videos().len(),
            forall|i: int|
                0 <= i < old(self).spec_videos().len() && (#[trigger] old(self).spec_videos()[i]).0 != id ==> final(self).spec_videos()[i] == old(self).spec_videos()[i],
            forall|i: int|
                0 <= i < old(self).spec_videos().len() && (#[trigger] old(self).spec_videos()[i]).0 == id ==> {
                    &&& final(self).spec_videos()[i].0 == id
                    &&& final(self).spec_videos()[i].1@ == old(self).spec_videos()[i].1@.after_end_of_stream()
                    &&& final(self).spec_videos()[i].1.spec_properties() == old(self).spec_videos()[i].1.spec_properties()
                    &&& final(self).spec_videos()[i].1.spec_transformations() == old(self).spec_videos()[i].1.spec_transformations()
                },
    {
        match self.find_index(id) {
            Some(i) => {
                let (sid, mut v) = self.videos.remove(i);
                v.send_end_of_stream();
                self.videos.insert(i, (sid, v));
                assert(self.videos@ =~= old(self).videos@.update(i as int, (sid, v)));
                Ok(())
            },
            None => Err(CompositorError::UnknownStream),
        }
    }

    /// Runs one output tick for the window. If any stream is not ready the
    /// tick aborts with every stream untouched. Otherwise each stream's draw
    /// decision is committed in insertion order and its stale frames are
    /// evicted; the tick reports the per-stream outcomes, or that every
    /// stream has ended, and — when anything was rendered for an established
    /// window — advances the last rendered pts to the window's end.
    pub fn tick(&mut self, window: Option<(u64, u64)>) -> (r: Result<TickResult, CompositorError>)
        requires
            old(self).wf(),
        ensures
            final(self).wf(),
            !all_ready(old(self).spec_videos(), window) ==> r == Ok::<
                TickResult,
                CompositorError,
            >(TickResult::NotReady) && final(self).spec_videos() == old(self).spec_videos()
                && final(self).spec_last_rendered() == old(self).spec_last_rendered(),
            all_ready(old(self).spec_videos(), window) && all_not_rendered(
                spec_results(old(self).spec_videos(), window),
            ) ==> r == Err::<TickResult, CompositorError>(CompositorError::EmptyCompositeAttempt)
                && final(self).spec_videos() == old(self).spec_videos() && final(self).spec_last_rendered() == old(self).spec_last_rendered(),
            all_ready(old(self).spec_videos(), window) && !all_not_rendered(
                spec_results(old(self).spec_videos(), window),
            ) ==> {
                &&& final(self).spec_videos().len() == old(self).spec_videos().len()
                &&& forall|i: int|
                    0 <= i < old(self).spec_videos().len() ==> {
                        &&& (#[trigger] final(self).spec_videos()[i]).0 == old(self).spec_videos()[i].0
                        &&& final(self).spec_videos()[i].1@ == old(self).spec_videos()[i].1@.after_draw(window).after_evict(window)
                        &&& final(self).spec_videos()[i].1.spec_properties() == old(self).spec_videos()[i].1.spec_properties()
                        &&& final(self).spec_videos()[i].1.spec_transformations() == old(self).spec_videos()[i].1.spec_transformations()
                    }
                &&& (if all_ended(spec_results(old(self).spec_videos(), window)) {
                    r == Ok::<TickResult, CompositorError>(TickResult::AllEnded)
                } else {
                    r matches Ok(tr) && tr matches TickResult::Composited(rv) && rv@
                        == spec_results(old(self).spec_videos(), window)
                })
                &&& (match window {
                    Some(w) => final(self).spec_last_rendered() == (if any_rendered(
                        spec_results(old(self).spec_videos(), window),
                    ) {
                        Some(w.1)
                    } else {
                        old(self).spec_last_rendered()
                    }),
                    None => final(self).spec_last_rendered() == old(self).spec_last_rendered(),
                })
            },
    {
        let ghost vs = self.videos@;
        let ghost rs = spec_results(vs, window);
        let n: usize = self.videos.len();

        // readiness gate: no stream is touched before every stream is ready
        let mut i: usize = 0;
        while i < n
            invariant
                self == old(self),
                self.wf(),
                vs == self.spec_videos(),
                n == vs.len(),
                0 <= i <= n,
                forall|k: int| 0 <= k < i ==> (#[trigger] vs[k]).1@.is_ready(window),
            decreases n - i,
        {
            if !self.videos[i].1.is_frame_ready(window) {
                return Ok(TickResult::NotReady);
            }
            i = i + 1;
        }
        assert(all_ready(vs, window));

        // collect every stream's decision before committing any of them
        let mut results: Vec<DrawResult> = Vec::new();
        let mut saw_not_rendered_only: bool = true;
        let mut saw_ended_only: bool = true;
        let mut saw_rendered: bool = false;
        let mut i: usize = 0;
        while i < n
            invariant
                self == old(self),
                vs == self.spec_videos(),
                n == vs.len(),
                rs == spec_results(vs, window),
                0 <= i <= n,
                results@.len() == i,
                forall|k: int| 0 <= k < i ==> #[trigger] results@[k] == rs[k],
                saw_not_rendered_only == (forall|k: int|
                    0 <= k < i ==> (#[trigger] rs[k]) is NotRendered),
                saw_ended_only == (forall|k: int| 0 <= k < i ==> (#[trigger] rs[k]) is EndOfStream),
                saw_rendered == (exists|k: int| 0 <= k < i && (#[trigger] rs[k]) is Rendered),
            decreases n - i,
        {
            let res: DrawResult = self.videos[i].1.select_for_draw(window);
            assert(res == rs[i as int]);
            match res {
                DrawResult::Rendered(_) => {
                    saw_not_rendered_only = false;
                    saw_ended_only = false;
                    saw_rendered = true;
                },
                DrawResult::NotRendered => {
                    saw_ended_only = false;
                },
                DrawResult::EndOfStream => {
                    saw_not_rendered_only = false;
                },
            }
            results.push(res);
            i = i + 1;
        }
        assert(results@ =~= rs);
        assert(saw_not_rendered_only == all_not_rendered(rs));
        assert(saw_ended_only == all_ended(rs));
        assert(saw_rendered == any_rendered(rs));

        if saw_not_rendered_only {
            // nothing to composite and no stream has ended: surfaced, the
            // caller decides whether to render an empty frame
            return Err(CompositorError::EmptyCompositeAttempt);
        }

        // commit the decisions and evict stale frames, in insertion order
        let mut updated: Vec<(StreamId, InputVideo<T>)> = Vec::new();
        while self.videos.len() > 0
            invariant
                n == vs.len(),
                self.spec_last_rendered() == old(self).spec_last_rendered(),
                updated@.len() + self.videos@.len() == n,
                self.videos@ =~= vs.skip(updated@.len() as int),
                forall|k: int|
                    0 <= k < updated@.len() ==> {
                        &&& (#[trigger] updated@[k]).0 == vs[k].0
                        &&& updated@[k].1@ == vs[k].1@.after_draw(window).after_evict(window)
                        &&& updated@[k].1.spec_properties() == vs[k].1.spec_properties()
                        &&& updated@[k].1.spec_transformations() == vs[k].1.spec_transformations()
                        &&& updated@[k].1.wf()
                    },
                forall|k: int| 0 <= k < n ==> (#[trigger] vs[k]).1.wf(),
                ids_unique(vs),
            decreases self.videos@.len(),
        {
            let ghost j = updated@.len() as int;
            let (sid, mut v) = self.videos.remove(0);
            assert(vs.skip(j).remove(0) =~= vs.skip(j + 1));
            assert((sid, v) == vs[j]);
            let _res = v.draw(window);
            v.remove_stale_frames(window);
            updated.push((sid, v));
        }
        let ghost upd = updated@;
        assert(upd.len() == n);
        self.videos = updated;
        assert(self.spec_videos() == upd);
        assert forall|a: int, b: int| 0 <= a < b < n implies (#[trigger] self.spec_videos()[a]).0
            != (#[trigger] self.spec_videos()[b]).0 by {
            assert(upd[a].0 == vs[a].0);
            assert(upd[b].0 == vs[b].0);
        }

        if saw_rendered {
            if let Some((_, end)) = window {
                self.last_rendered_pts = Some(end);
            }
        }

        if saw_ended_only {
            Ok(TickResult::AllEnded)
        } else {
            Ok(TickResult::Composited(results))
        }
    }
}

} // verus!
