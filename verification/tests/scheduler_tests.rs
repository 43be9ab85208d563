//! Scenarios for the composition scheduler: the all-ready gate, per-stream
//! outcomes in insertion order, end-of-stream aggregation, and the errors.

use video_compositor::props::{Vec2d, VideoPlacement, VideoProperties};
use video_compositor::scheduler::{CompositionScheduler, CompositorError, StreamId, TickResult};
use video_compositor::sync::DrawResult;

fn props() -> VideoProperties {
    VideoProperties {
        resolution: Vec2d { x: 320, y: 240 },
        placement: VideoPlacement {
            position: Vec2d { x: 0, y: 0 },
            size: Vec2d { x: 320, y: 240 },
            z: 0,
        },
    }
}

#[test]
fn tick_waits_until_every_stream_is_ready() {
    let mut s: CompositionScheduler<u32> = CompositionScheduler::new();
    s.add_video(StreamId(1), props(), vec![]);
    s.add_video(StreamId(2), props(), vec![]);
    s.upload_frame(StreamId(1), 11, 10).unwrap();
    // stream 2 has nothing queued: the tick aborts, and neither stream is
    // drawn from or evicted
    assert_eq!(s.tick(Some((5, 15))), Ok(TickResult::NotReady));
    let one = s.video(StreamId(1)).unwrap();
    assert_eq!(one.front_pts(), Some(10));
    // stream 1 was not drawn: its grace period is still in force, so a frame
    // beyond a window's end still counts as ready
    assert!(one.is_frame_ready(Some((0, 5))));
    // once stream 2 catches up the tick goes through
    s.upload_frame(StreamId(2), 22, 12).unwrap();
    assert_eq!(
        s.tick(Some((5, 15))),
        Ok(TickResult::Composited(vec![
            DrawResult::Rendered(10),
            DrawResult::Rendered(12),
        ]))
    );
    assert_eq!(s.last_rendered_pts(), Some(15));
}

#[test]
fn outcomes_come_in_insertion_order() {
    let mut s: CompositionScheduler<u32> = CompositionScheduler::new();
    s.add_video(StreamId(9), props(), vec![]);
    s.add_video(StreamId(3), props(), vec![]);
    s.add_video(StreamId(7), props(), vec![]);
    s.upload_frame(StreamId(9), 1, 30).unwrap();
    s.upload_frame(StreamId(3), 2, 31).unwrap();
    s.send_end_of_stream(StreamId(7)).unwrap();
    assert_eq!(
        s.tick(Some((30, 40))),
        Ok(TickResult::Composited(vec![
            DrawResult::Rendered(30),
            DrawResult::Rendered(31),
            DrawResult::EndOfStream,
        ]))
    );
}

#[test]
fn rendered_window_end_supersedes_late_frames() {
    let mut s: CompositionScheduler<u32> = CompositionScheduler::new();
    s.add_video(StreamId(1), props(), vec![]);
    s.upload_frame(StreamId(1), 1, 10).unwrap();
    // the stream is just added, so its behind-the-window frame still renders,
    // and the eviction pass then moves it into the fallback slot
    assert_eq!(
        s.tick(Some((15, 25))),
        Ok(TickResult::Composited(vec![DrawResult::Rendered(10)]))
    );
    assert_eq!(s.last_rendered_pts(), Some(25));
    assert_eq!(s.video(StreamId(1)).unwrap().front_pts(), None);
    // a frame at pts 14 is behind the rendered timeline: it is not queued,
    // it only refreshes the fallback
    s.upload_frame(StreamId(1), 2, 14).unwrap();
    let one = s.video(StreamId(1)).unwrap();
    assert_eq!(one.front_pts(), None);
    assert_eq!(one.select_for_draw(Some((15, 25))), DrawResult::Rendered(14));
    // a frame ahead of the rendered timeline is queued
    s.upload_frame(StreamId(1), 3, 26).unwrap();
    assert_eq!(s.video(StreamId(1)).unwrap().front_pts(), Some(26));
}

#[test]
fn empty_composite_is_surfaced() {
    // no streams at all: nothing can be composited
    let mut s: CompositionScheduler<u32> = CompositionScheduler::new();
    assert_eq!(s.tick(Some((0, 10))), Err(CompositorError::EmptyCompositeAttempt));

    // one stream, ready only through its grace period, whose sole frame is
    // beyond the window: it contributes nothing, so there is nothing to show
    s.add_video(StreamId(1), props(), vec![]);
    s.upload_frame(StreamId(1), 1, 100).unwrap();
    assert_eq!(s.tick(Some((0, 50))), Err(CompositorError::EmptyCompositeAttempt));
    // the failed tick changed nothing: the frame is still queued and the
    // stream still in its grace period
    assert_eq!(s.video(StreamId(1)).unwrap().front_pts(), Some(100));
    assert_eq!(s.last_rendered_pts(), None);
}

#[test]
fn all_streams_ended() {
    let mut s: CompositionScheduler<u32> = CompositionScheduler::new();
    s.add_video(StreamId(1), props(), vec![]);
    s.add_video(StreamId(2), props(), vec![]);
    s.send_end_of_stream(StreamId(1)).unwrap();
    s.send_end_of_stream(StreamId(2)).unwrap();
    assert_eq!(s.tick(Some((0, 10))), Ok(TickResult::AllEnded));
    // ending is stable: the sentinel is never consumed by a tick
    assert_eq!(s.tick(Some((10, 20))), Ok(TickResult::AllEnded));
}

#[test]
fn unknown_stream_is_a_contract_violation() {
    let mut s: CompositionScheduler<u32> = CompositionScheduler::new();
    s.add_video(StreamId(1), props(), vec![]);
    assert_eq!(s.upload_frame(StreamId(2), 1, 10), Err(CompositorError::UnknownStream));
    assert_eq!(s.send_end_of_stream(StreamId(2)), Err(CompositorError::UnknownStream));
    assert_eq!(s.remove_video(StreamId(2)), Err(CompositorError::UnknownStream));
    assert!(s.video(StreamId(2)).is_none());
    assert!(s.contains_stream(StreamId(1)));
    assert!(!s.contains_stream(StreamId(2)));
}

#[test]
fn add_and_remove_streams() {
    let mut s: CompositionScheduler<u32> = CompositionScheduler::new();
    assert_eq!(s.stream_count(), 0);
    s.add_video(StreamId(1), props(), vec![]);
    s.add_video(StreamId(2), props(), vec![]);
    assert_eq!(s.stream_count(), 2);
    assert_eq!(s.remove_video(StreamId(1)), Ok(()));
    assert_eq!(s.stream_count(), 1);
    assert!(!s.contains_stream(StreamId(1)));
    assert!(s.contains_stream(StreamId(2)));
    // re-adding an id resets that stream
    s.upload_frame(StreamId(2), 1, 10).unwrap();
    s.add_video(StreamId(2), props(), vec![]);
    assert_eq!(s.video(StreamId(2)).unwrap().front_pts(), None);
    assert_eq!(s.stream_count(), 1);
}

#[test]
fn no_window_first_tick_renders_anything() {
    let mut s: CompositionScheduler<u32> = CompositionScheduler::new();
    s.add_video(StreamId(1), props(), vec![]);
    s.upload_frame(StreamId(1), 1, 12345).unwrap();
    assert_eq!(
        s.tick(None),
        Ok(TickResult::Composited(vec![DrawResult::Rendered(12345)]))
    );
    // no window was established, so nothing is recorded as rendered-up-to
    assert_eq!(s.last_rendered_pts(), None);
}
