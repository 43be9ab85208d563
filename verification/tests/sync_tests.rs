//! Scenarios for one stream's synchronization engine: the enqueue policy,
//! readiness, draw selection with the grace period, fallback use, and
//! stale-frame eviction.

use video_compositor::props::{Vec2d, VideoPlacement, VideoProperties};
use video_compositor::sync::DrawResult;
use video_compositor::video::InputVideo;

fn props() -> VideoProperties {
    VideoProperties {
        resolution: Vec2d { x: 640, y: 480 },
        placement: VideoPlacement {
            position: Vec2d { x: 0, y: 0 },
            size: Vec2d { x: 640, y: 480 },
            z: 500,
        },
    }
}

#[test]
fn accepts_any_frame_before_first_render() {
    let mut v: InputVideo<u32> = InputVideo::new(props(), vec![]);
    assert_eq!(v.front_pts(), None);
    v.upload_data(1, 10, None);
    assert_eq!(v.front_pts(), Some(10));
    v.upload_data(2, 20, None);
    assert_eq!(v.front_pts(), Some(10));
}

#[test]
fn rejects_superseded_frame_and_keeps_best_fallback() {
    let mut v: InputVideo<u32> = InputVideo::new(props(), vec![]);
    v.upload_data(1, 10, None);
    // move pts 10 into the fallback slot
    v.pop_frame();
    assert_eq!(v.front_pts(), None);
    // pts 12 is behind the rendered timeline (15): rejected, but newer than
    // the fallback, so it replaces it
    v.upload_data(2, 12, Some(15));
    assert_eq!(v.front_pts(), None);
    assert_eq!(v.draw(Some((20, 30))), DrawResult::Rendered(12));
    // pts 13 behind the timeline again, newer again: fallback advances
    v.upload_data(3, 13, Some(15));
    assert_eq!(v.draw(Some((20, 30))), DrawResult::Rendered(13));
    // pts 16 is ahead of the rendered timeline: accepted into the queue
    v.upload_data(4, 16, Some(15));
    assert_eq!(v.front_pts(), Some(16));
}

#[test]
fn rejected_frame_without_fallback_is_dropped() {
    let mut v: InputVideo<u32> = InputVideo::new(props(), vec![]);
    v.upload_data(1, 5, Some(9));
    assert_eq!(v.front_pts(), None);
    assert_eq!(v.draw(None), DrawResult::NotRendered);
}

#[test]
fn grace_period_draw_decisions() {
    // a just-added stream with only a future frame renders it when no window
    // exists yet
    let mut v: InputVideo<u32> = InputVideo::new(props(), vec![]);
    v.upload_data(1, 100, None);
    assert!(v.is_frame_ready(None));
    assert_eq!(v.draw(None), DrawResult::Rendered(100));

    // the same stream, still just added: a frame beyond the window's end is
    // blocked, so the stream stays ready without being drawn
    let mut w: InputVideo<u32> = InputVideo::new(props(), vec![]);
    w.upload_data(1, 100, None);
    assert!(w.is_frame_ready(Some((0, 50))));
    assert_eq!(w.draw(Some((0, 50))), DrawResult::NotRendered);

    // once settled (a draw succeeded), the same frame renders wherever the
    // window lies — but the stream is no longer ready for a window it missed
    assert_eq!(w.draw(None), DrawResult::Rendered(100));
    assert!(!w.is_frame_ready(Some((0, 50))));
    assert_eq!(w.draw(Some((0, 50))), DrawResult::Rendered(100));
}

#[test]
fn window_sequence_selects_frames_in_order() {
    let mut v: InputVideo<u32> = InputVideo::new(props(), vec![]);
    v.upload_data(1, 10, None);
    v.upload_data(2, 20, None);
    v.upload_data(3, 30, None);
    // front is 10, not in the window, but the stream was just added: ready
    assert!(v.is_frame_ready(Some((15, 25))));
    assert_eq!(v.draw(Some((15, 25))), DrawResult::Rendered(10));
    // after the draw, the front falls behind the window start and is evicted
    assert!(v.is_front_frame_too_old(Some((15, 25))));
    v.remove_stale_frames(Some((15, 25)));
    assert_eq!(v.front_pts(), Some(20));
    assert_eq!(v.draw(Some((15, 25))), DrawResult::Rendered(20));
}

#[test]
fn draw_does_not_pop_the_frame() {
    let mut v: InputVideo<u32> = InputVideo::new(props(), vec![]);
    v.upload_data(7, 10, None);
    assert_eq!(v.draw(Some((5, 15))), DrawResult::Rendered(10));
    assert_eq!(v.front_pts(), Some(10));
    assert_eq!(v.draw(Some((5, 15))), DrawResult::Rendered(10));
    assert_eq!(v.selected_frame(Some((5, 15))), Some(&7));
}

#[test]
fn empty_queue_falls_back_to_last_consumed_frame() {
    let mut v: InputVideo<u32> = InputVideo::new(props(), vec![]);
    v.upload_data(1, 10, None);
    assert_eq!(v.draw(Some((5, 15))), DrawResult::Rendered(10));
    v.remove_stale_frames(Some((20, 30)));
    assert_eq!(v.front_pts(), None);
    // the queue is empty: the evicted frame is reused as the fallback
    assert_eq!(v.draw(Some((20, 30))), DrawResult::Rendered(10));
    assert_eq!(v.selected_frame(Some((20, 30))), Some(&1));
    // but the stream is not ready: only a queued message makes it ready
    assert!(!v.is_frame_ready(Some((20, 30))));
}

#[test]
fn end_of_stream_after_frames_exhausted() {
    let mut v: InputVideo<u32> = InputVideo::new(props(), vec![]);
    v.upload_data(1, 10, None);
    assert_eq!(v.draw(Some((5, 15))), DrawResult::Rendered(10));
    v.remove_stale_frames(Some((20, 30)));
    v.send_end_of_stream();
    // ready regardless of window once the sentinel is at the front
    assert!(v.is_frame_ready(None));
    assert!(v.is_frame_ready(Some((0, 1))));
    assert!(v.is_frame_ready(Some((20, 30))));
    assert_eq!(v.draw(Some((20, 30))), DrawResult::EndOfStream);
    assert_eq!(v.draw(None), DrawResult::EndOfStream);
    assert_eq!(v.selected_frame(Some((20, 30))), None);
}

#[test]
fn sentinel_is_never_evicted() {
    let mut v: InputVideo<u32> = InputVideo::new(props(), vec![]);
    v.upload_data(1, 10, None);
    v.send_end_of_stream();
    v.remove_stale_frames(Some((100, 200)));
    // pts 10 was evicted, the sentinel stayed
    assert_eq!(v.draw(Some((100, 200))), DrawResult::EndOfStream);
    v.remove_stale_frames(Some((100, 200)));
    assert_eq!(v.draw(Some((100, 200))), DrawResult::EndOfStream);
}

#[test]
fn eviction_is_idempotent() {
    let mk = || {
        let mut v: InputVideo<u32> = InputVideo::new(props(), vec![]);
        v.upload_data(1, 10, None);
        v.upload_data(2, 20, None);
        v.upload_data(3, 30, None);
        v
    };
    let mut once = mk();
    once.remove_stale_frames(Some((25, 35)));
    let mut twice = mk();
    twice.remove_stale_frames(Some((25, 35)));
    twice.remove_stale_frames(Some((25, 35)));
    assert_eq!(once.front_pts(), Some(30));
    assert_eq!(twice.front_pts(), Some(30));
    assert_eq!(
        once.draw(Some((25, 35))),
        twice.draw(Some((25, 35)))
    );
}

#[test]
fn fallback_pts_never_decreases() {
    let mut v: InputVideo<u32> = InputVideo::new(props(), vec![]);
    v.upload_data(1, 10, None);
    v.upload_data(2, 20, None);
    // evict both: the fallback is the newest evicted frame
    v.remove_stale_frames(Some((25, 35)));
    assert_eq!(v.draw(Some((25, 35))), DrawResult::Rendered(20));
    // a rejected older frame does not displace the newer fallback
    v.upload_data(3, 15, Some(25));
    assert_eq!(v.draw(Some((25, 35))), DrawResult::Rendered(20));
    // a rejected newer frame does
    v.upload_data(4, 22, Some(25));
    assert_eq!(v.draw(Some((25, 35))), DrawResult::Rendered(22));
}

#[test]
fn popping_the_sentinel_discards_it() {
    let mut v: InputVideo<u32> = InputVideo::new(props(), vec![]);
    v.send_end_of_stream();
    v.pop_frame();
    // the queue is empty again and no fallback was created
    assert!(!v.is_frame_ready(None));
    assert_eq!(v.draw(None), DrawResult::NotRendered);
}
