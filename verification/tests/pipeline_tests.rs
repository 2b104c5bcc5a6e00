use prism_player::pipeline::deliver_with_retry;
use prism_player::pipeline::exit_requested;
use prism_player::pipeline::DecodeThreadCommand;
use prism_player::pipeline::DeliverOutcome;
use prism_player::player::prepare_shutdown;
use prism_player::units::VideoUnit;

fn unit(pts_us: i64) -> VideoUnit {
    VideoUnit { data: Vec::new(), pts_us }
}

#[test]
fn backpressure_loses_no_unit() {
    // Capacity 5, 12 units, a consumer that only takes one unit each time
    // the producer runs out of room: every unit arrives, in order.
    let (tx, rx) = flume::bounded::<VideoUnit>(5);
    let (_ctx, crx) = flume::bounded::<DecodeThreadCommand>(1);
    let mut received: Vec<i64> = Vec::new();
    for i in 0..12i64 {
        let mut u = unit(i);
        loop {
            match deliver_with_retry(&tx, &crx, u, 1, 2) {
                DeliverOutcome::Delivered => break,
                DeliverOutcome::Expired(back) => {
                    // The unit came back intact; make room and retry it.
                    assert_eq!(back.pts_us, i);
                    received.push(rx.recv().unwrap().pts_us);
                    u = back;
                }
                DeliverOutcome::Interrupted(_) => panic!("no exit was sent"),
                DeliverOutcome::Closed(_) => panic!("receiver is alive"),
            }
        }
    }
    while let Ok(u) = rx.try_recv() {
        received.push(u.pts_us);
    }
    let expected: Vec<i64> = (0..12).collect();
    assert_eq!(received, expected);
}

#[test]
fn exit_interrupts_a_blocked_send_within_one_retry() {
    // Channel full, consumer idle: after one timed-out attempt the pending
    // exit command ends the loop and the unit comes back intact.
    let (tx, rx) = flume::bounded::<VideoUnit>(2);
    let (ctx, crx) = flume::bounded::<DecodeThreadCommand>(1);
    tx.send(unit(0)).unwrap();
    tx.send(unit(1)).unwrap();
    ctx.send(DecodeThreadCommand::Exit).unwrap();
    match deliver_with_retry(&tx, &crx, unit(2), 20, 1_000_000) {
        DeliverOutcome::Interrupted(u) => assert_eq!(u.pts_us, 2),
        _ => panic!("expected the exit command to interrupt the send"),
    }
    // The channel still holds exactly the units that fit.
    assert_eq!(rx.try_recv().unwrap().pts_us, 0);
    assert_eq!(rx.try_recv().unwrap().pts_us, 1);
    assert!(rx.try_recv().is_err());
}

#[test]
fn closed_channel_hands_the_unit_back() {
    let (tx, rx) = flume::bounded::<VideoUnit>(2);
    let (_ctx, crx) = flume::bounded::<DecodeThreadCommand>(1);
    drop(rx);
    match deliver_with_retry(&tx, &crx, unit(9), 5, 3) {
        DeliverOutcome::Closed(u) => assert_eq!(u.pts_us, 9),
        _ => panic!("expected the closed channel to end delivery"),
    }
}

#[test]
fn attempt_budget_returns_the_unit_unchanged() {
    let (tx, _rx) = flume::bounded::<VideoUnit>(1);
    let (_ctx, crx) = flume::bounded::<DecodeThreadCommand>(1);
    tx.send(unit(0)).unwrap();
    match deliver_with_retry(&tx, &crx, unit(5), 1, 3) {
        DeliverOutcome::Expired(u) => assert_eq!(u.pts_us, 5),
        _ => panic!("expected the attempt budget to run out"),
    }
}

#[test]
fn exit_request_is_seen_once() {
    let (ctx, crx) = flume::bounded::<DecodeThreadCommand>(1);
    assert!(!exit_requested(&crx));
    ctx.send(DecodeThreadCommand::Exit).unwrap();
    assert!(exit_requested(&crx));
    assert!(!exit_requested(&crx));
}

#[test]
fn shutdown_reports_a_dead_command_channel() {
    let (tx, rx) = flume::bounded::<VideoUnit>(2);
    let (ctx, crx) = flume::bounded::<DecodeThreadCommand>(1);
    tx.send(unit(4)).unwrap();
    drop(crx);
    let (drained, delivered) = prepare_shutdown(&rx, &ctx);
    assert_eq!(drained, 1);
    assert!(!delivered);
}

#[test]
fn shutdown_drains_before_sending_exit() {
    let (tx, rx) = flume::bounded::<VideoUnit>(5);
    let (ctx, crx) = flume::bounded::<DecodeThreadCommand>(1);
    tx.send(unit(0)).unwrap();
    tx.send(unit(1)).unwrap();
    tx.send(unit(2)).unwrap();
    let (drained, delivered) = prepare_shutdown(&rx, &ctx);
    assert_eq!(drained, 3);
    assert!(delivered);
    assert!(rx.try_recv().is_err());
    assert_eq!(crx.try_recv().unwrap(), DecodeThreadCommand::Exit);
}
