use prism_player::clock::GlobalClock;
use prism_player::sched::commands_equivalent;
use prism_player::sched::frame_decision;
use prism_player::sched::FrameDecision;
use prism_player::sched::VideoCommand;
use prism_player::sched::VideoPipeline;
use prism_player::sched::VideoTarget;
use prism_player::units::VideoUnit;

fn unit(pts_us: i64) -> VideoUnit {
    VideoUnit { data: Vec::new(), pts_us }
}

#[test]
fn stale_frame_is_dropped() {
    // 200 ms behind the clock: beyond the 150 ms drop threshold.
    let now = 1_000_000;
    assert_eq!(frame_decision(now - 200_000, now), FrameDecision::Drop);
}

#[test]
fn nearly_due_frame_is_shown() {
    // 10 ms ahead: within the 30 ms show tolerance.
    let now = 1_000_000;
    assert_eq!(frame_decision(now + 10_000, now), FrameDecision::Show);
}

#[test]
fn future_frame_is_deferred() {
    // 100 ms ahead: beyond the show tolerance, within the drop threshold.
    let now = 1_000_000;
    assert_eq!(frame_decision(now + 100_000, now), FrameDecision::Wait);
}

#[test]
fn show_tolerance_boundary_is_inclusive() {
    let now = 1_000_000;
    assert_eq!(frame_decision(now + 30_000, now), FrameDecision::Show);
    assert_eq!(frame_decision(now + 30_001, now), FrameDecision::Wait);
}

#[test]
fn drop_threshold_boundary_keeps_the_frame() {
    let now = 1_000_000;
    assert_eq!(frame_decision(now - 150_000, now), FrameDecision::Show);
    assert_eq!(frame_decision(now - 150_001, now), FrameDecision::Drop);
}

#[test]
fn target_shows_a_due_frame_and_records_it() {
    let (tx, rx) = flume::bounded::<VideoUnit>(4);
    let mut tgt = VideoTarget::new(rx, GlobalClock::new());
    tx.send(unit(10_000)).unwrap();
    let shown = tgt.tick(0);
    assert_eq!(shown.map(|u| u.pts_us), Some(10_000));
    assert_eq!(tgt.last_pts_us, Some(10_000));
    assert_eq!(tgt.first_pts_us, Some(10_000));
    assert!(tgt.slot.is_none());
}

#[test]
fn target_defers_a_future_frame_in_its_slot() {
    let (tx, rx) = flume::bounded::<VideoUnit>(4);
    let mut tgt = VideoTarget::new(rx, GlobalClock::new());
    tx.send(unit(100_000)).unwrap();
    assert!(tgt.tick(0).is_none());
    assert!(tgt.slot.is_some());
    assert_eq!(tgt.last_pts_us, None);
    // Once the clock catches up, the same frame is shown.
    let shown = tgt.tick(80_000);
    assert_eq!(shown.map(|u| u.pts_us), Some(100_000));
}

#[test]
fn target_drops_a_stale_frame_without_presenting_it() {
    let (tx, rx) = flume::bounded::<VideoUnit>(4);
    let mut tgt = VideoTarget::new(rx, GlobalClock::new());
    tx.send(unit(0)).unwrap();
    assert!(tgt.tick(200_000).is_none());
    assert!(tgt.slot.is_none());
    assert_eq!(tgt.last_pts_us, None);
}

#[test]
fn registry_creates_one_target_per_identifier() {
    let clock = GlobalClock::new();
    let mut pipeline = VideoPipeline::new();
    let (_tx1, rx1) = flume::bounded::<VideoUnit>(4);
    let (_tx2, rx2) = flume::bounded::<VideoUnit>(4);
    pipeline.ensure_target(VideoCommand {
        id: 7,
        width: 640,
        height: 360,
        receiver: rx1,
        clock: clock.clone(),
    });
    pipeline.ensure_target(VideoCommand {
        id: 7,
        width: 640,
        height: 360,
        receiver: rx2,
        clock,
    });
    assert_eq!(pipeline.targets.len(), 1);
    assert!(pipeline.has_target(7));
    assert!(!pipeline.has_target(8));
}

#[test]
fn commands_agree_only_on_a_paused_clock() {
    let clock = GlobalClock::new();
    let (_tx, rx) = flume::bounded::<VideoUnit>(4);
    let a = VideoCommand::new(5, 100, 100, &rx, &clock);
    let b = VideoCommand::new(5, 100, 100, &rx, &clock);
    let c = VideoCommand::new(6, 100, 100, &rx, &clock);
    // Running clock: never equivalent, even with matching identifiers.
    assert!(!commands_equivalent(&a, &b));
    clock.pause();
    assert!(commands_equivalent(&a, &b));
    assert!(!commands_equivalent(&a, &c));
}

#[test]
fn begin_frame_presents_due_frames_per_target() {
    let clock = GlobalClock::new();
    let mut pipeline = VideoPipeline::new();
    let (tx, rx) = flume::bounded::<VideoUnit>(4);
    pipeline.ensure_target(VideoCommand {
        id: 11,
        width: 320,
        height: 180,
        receiver: rx,
        clock,
    });
    tx.send(unit(0)).unwrap();
    let out = pipeline.begin_frame();
    assert_eq!(out.len(), 1);
    assert_eq!(out[0].0, 11);
    assert_eq!(out[0].1.pts_us, 0);
    assert_eq!(pipeline.targets.len(), 1);
}
