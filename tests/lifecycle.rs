use mcpanel::lifecycle::{ProcessSlot, RunStatus, StartReply, StopReply, StopStep};

type Slot = ProcessSlot<u32, &'static str>;

#[test]
fn new_slot_is_stopped() {
    let slot: Slot = ProcessSlot::new();
    assert_eq!(slot.status(), RunStatus::Stopped);
    assert!(slot.should_launch());
}

#[test]
fn two_starts_launch_once() {
    let mut slot: Slot = ProcessSlot::new();
    let mut launches = 0;
    let mut replies = Vec::new();
    for _ in 0..2 {
        let launched = if slot.should_launch() {
            launches += 1;
            Some((1u32, "monitor"))
        } else {
            None
        };
        replies.push(slot.finish_start(launched));
    }
    assert_eq!(launches, 1);
    assert_eq!(replies, vec![StartReply::Starting, StartReply::AlreadyRunning]);
    assert_eq!(slot.status(), RunStatus::Running);
}

#[test]
fn spawn_failure_leaves_slot_stopped() {
    let mut slot: Slot = ProcessSlot::new();
    assert_eq!(slot.finish_start(None), StartReply::ErrorSpawning);
    assert_eq!(slot.status(), RunStatus::Stopped);
}

#[test]
fn stop_on_stopped_slot() {
    let mut slot: Slot = ProcessSlot::new();
    match slot.begin_stop() {
        StopStep::Reply(r) => assert_eq!(r, StopReply::AlreadyStopped),
        StopStep::Deliver(_) => panic!("nothing to deliver to"),
    }
    assert_eq!(slot.status(), RunStatus::Stopped);
    assert!(slot.should_launch());
}

#[test]
fn graceful_stop_keeps_running_until_exit() {
    let mut slot: Slot = ProcessSlot::new();
    slot.finish_start(Some((7, "monitor")));
    match slot.begin_stop() {
        StopStep::Deliver(h) => assert_eq!(h, 7),
        StopStep::Reply(_) => panic!("expected the input handle"),
    }
    assert_eq!(slot.finish_stop(true), (StopReply::StoppingGracefully, None));
    assert_eq!(slot.status(), RunStatus::Running);
    slot.on_exit();
    assert_eq!(slot.status(), RunStatus::Stopped);
}

#[test]
fn failed_write_clears_slot_and_returns_monitor() {
    let mut slot: Slot = ProcessSlot::new();
    slot.finish_start(Some((7, "monitor")));
    assert!(matches!(slot.begin_stop(), StopStep::Deliver(7)));
    assert_eq!(slot.finish_stop(false), (StopReply::ErrorStopping, Some("monitor")));
    assert_eq!(slot.status(), RunStatus::Stopped);
}

#[test]
fn second_stop_without_stdin_reports_error() {
    let mut slot: Slot = ProcessSlot::new();
    slot.finish_start(Some((7, "monitor")));
    assert!(matches!(slot.begin_stop(), StopStep::Deliver(7)));
    slot.finish_stop(true);
    match slot.begin_stop() {
        StopStep::Reply(r) => assert_eq!(r, StopReply::ErrorNoStdin),
        StopStep::Deliver(_) => panic!("input handle was already used"),
    }
    assert_eq!(slot.status(), RunStatus::Stopped);
}

#[test]
fn exit_without_stop_reconciles_status() {
    let mut slot: Slot = ProcessSlot::new();
    slot.finish_start(Some((7, "monitor")));
    assert_eq!(slot.status(), RunStatus::Running);
    slot.on_exit();
    assert_eq!(slot.status(), RunStatus::Stopped);
    assert_eq!(slot.finish_start(Some((8, "monitor2"))), StartReply::Starting);
}

#[test]
fn wire_labels() {
    assert_eq!(RunStatus::Running.label(), "running");
    assert_eq!(RunStatus::Stopped.label(), "stopped");
    assert_eq!(StartReply::AlreadyRunning.label(), "already_running");
    assert_eq!(StartReply::Starting.label(), "starting");
    assert_eq!(StartReply::ErrorSpawning.label(), "error_spawning");
    assert_eq!(StopReply::AlreadyStopped.label(), "already_stopped");
    assert_eq!(StopReply::StoppingGracefully.label(), "stopping_gracefully");
    assert_eq!(StopReply::ErrorStopping.label(), "error_stopping");
    assert_eq!(StopReply::ErrorNoStdin.label(), "error_no_stdin");
}
