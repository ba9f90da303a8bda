//! The watching phase, one step at a time: dispatch decisions, launch
//! failures, and the unrecoverable source error.

use fswatch::event::{ChangeKind, RawNotification};
use fswatch::watch::{
    absorb_outcome, initialize, next_step, DispatchOutcome, SourceEvent, TerminationReason,
    WatchConfig, WatchPhase,
};

fn plain_config() -> WatchConfig {
    initialize(
        "watched".to_string(),
        vec!["true".to_string()],
        None,
        2,
    )
    .unwrap()
}

#[test]
fn created_file_yields_one_dispatch() {
    // A creation in the watched tree, no exclusion configured: exactly one
    // dispatch decision, kind Created, with the reported path.
    let config = plain_config();
    let (phase, dispatch) = next_step(
        &config,
        SourceEvent::Notification(RawNotification::Create("watched/fresh.txt".to_string())),
    );
    assert_eq!(phase, WatchPhase::Watching);
    let event = dispatch.expect("a creation must dispatch");
    assert_eq!(event.kind, ChangeKind::Created);
    assert_eq!(event.path, "watched/fresh.txt");
    assert_eq!(event.origin_path, None);
}

#[test]
fn dropped_notification_is_a_silent_no_op() {
    let config = plain_config();
    let (phase, dispatch) = next_step(
        &config,
        SourceEvent::Notification(RawNotification::Rescan),
    );
    assert_eq!(phase, WatchPhase::Watching);
    assert_eq!(dispatch, None);
}

#[test]
fn excluded_notification_is_a_silent_no_op() {
    let config = initialize(
        "watched".to_string(),
        vec!["true".to_string()],
        Some(r"\.tmp$".to_string()),
        2,
    )
    .unwrap();
    let (phase, dispatch) = next_step(
        &config,
        SourceEvent::Notification(RawNotification::NoticeWrite("scratch.tmp".to_string())),
    );
    assert_eq!(phase, WatchPhase::Watching);
    assert_eq!(dispatch, None);
}

#[test]
fn closed_channel_terminates_with_source_error() {
    let config = plain_config();
    let (phase, dispatch) = next_step(
        &config,
        SourceEvent::Closed("receiving on an empty and disconnected channel".to_string()),
    );
    assert_eq!(
        phase,
        WatchPhase::Terminated(TerminationReason::SourceError(
            "receiving on an empty and disconnected channel".to_string()
        ))
    );
    assert_eq!(dispatch, None);
}

#[test]
fn launch_failure_does_not_terminate_the_loop() {
    // A failed spawn is absorbed; the next valid trigger still dispatches.
    let config = plain_config();
    let failure = DispatchOutcome::LaunchFailed("No such file or directory".to_string());
    let phase = absorb_outcome(WatchPhase::Watching, &failure);
    assert_eq!(phase, WatchPhase::Watching);

    let (phase, dispatch) = next_step(
        &config,
        SourceEvent::Notification(RawNotification::NoticeWrite("watched/main.rs".to_string())),
    );
    assert_eq!(phase, WatchPhase::Watching);
    let event = dispatch.expect("the loop must keep dispatching after a launch failure");
    assert_eq!(event.kind, ChangeKind::Modified);
    assert_eq!(event.path, "watched/main.rs");
}

#[test]
fn successful_launch_keeps_watching_too() {
    let phase = absorb_outcome(WatchPhase::Watching, &DispatchOutcome::Launched);
    assert_eq!(phase, WatchPhase::Watching);
}
