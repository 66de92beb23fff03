use jetstream_client::pipeline::{
    drain_wait_ms, sink_step, LoopAction, LoopEvent, SinkAction, SinkEvent, Supervisor, DRAIN_TIMEOUT_MS,
    SINK_CAPACITY,
};

fn is_spawn<H>(a: &LoopAction<H>) -> bool {
    matches!(a, LoopAction::Spawn)
}

fn is_ignore<H>(a: &LoopAction<H>) -> bool {
    matches!(a, LoopAction::Ignore)
}

#[test]
fn shutdown_cancels_tracked_tasks_and_stops_spawning() {
    let mut s: Supervisor<u32> = Supervisor::new();
    assert!(s.is_running());
    assert!(is_spawn(&s.step(LoopEvent::Inbound)));
    s.track(1);
    assert!(is_spawn(&s.step(LoopEvent::Inbound)));
    s.track(2);
    s.track(3);
    s.prune(&vec![true, false, false]);
    assert_eq!(s.tasks(), &vec![2, 3]);
    assert!(is_ignore(&s.step(LoopEvent::ShutdownChanged(false))));
    match s.step(LoopEvent::ShutdownChanged(true)) {
        LoopAction::CancelAll(v) => assert_eq!(v, vec![2, 3]),
        _ => panic!("expected cancellation"),
    }
    assert!(s.is_shutdown());
    assert!(!s.is_running());
    assert!(s.tasks().is_empty());
    for _ in 0..5 {
        assert!(is_ignore(&s.step(LoopEvent::Inbound)));
    }
    assert!(is_ignore(&s.step(LoopEvent::StreamEnded)));
    assert!(is_ignore(&s.step(LoopEvent::ShutdownChanged(true))));
    assert!(s.is_shutdown());
}

#[test]
fn stream_end_finishes_without_cancelling() {
    let mut s: Supervisor<u32> = Supervisor::new();
    s.track(7);
    assert!(matches!(s.step(LoopEvent::StreamEnded), LoopAction::Finish));
    assert!(!s.is_running());
    assert!(!s.is_shutdown());
    assert_eq!(s.tasks(), &vec![7]);
    assert!(is_ignore(&s.step(LoopEvent::Inbound)));
}

#[test]
fn prune_keeps_order_of_unfinished() {
    let mut s: Supervisor<&str> = Supervisor::new();
    for t in ["a", "b", "c", "d"] {
        s.track(t);
    }
    s.prune(&vec![false, true, false, true]);
    assert_eq!(s.tasks(), &vec!["a", "c"]);
    s.prune(&vec![true, true]);
    assert!(s.tasks().is_empty());
}

#[test]
fn sink_drains_through_shutdown_and_stops_on_close() {
    assert_eq!(sink_step(SinkEvent::Item("x")), SinkAction::Emit("x"));
    assert_eq!(sink_step(SinkEvent::<&str>::ShutdownChanged(false)), SinkAction::Wait);
    assert_eq!(sink_step(SinkEvent::<&str>::ShutdownChanged(true)), SinkAction::Wait);
    assert_eq!(sink_step(SinkEvent::Item("queued")), SinkAction::Emit("queued"));
    assert_eq!(sink_step(SinkEvent::<&str>::Closed), SinkAction::Stop);
}

#[test]
fn drain_wait_is_bounded() {
    assert_eq!(drain_wait_ms(true), None);
    assert_eq!(drain_wait_ms(false), Some(DRAIN_TIMEOUT_MS));
    assert_eq!(DRAIN_TIMEOUT_MS, 2000);
    assert_eq!(SINK_CAPACITY, 10000);
}
