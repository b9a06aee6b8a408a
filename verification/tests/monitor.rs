use scene_tick::monitor::{
    observe, needs_observation, LoadStatus, MonitorState, Report, RETRY_LIMIT,
};

fn no_resolutions() -> Vec<Option<u64>> {
    Vec::new()
}

#[test]
fn initial_state() {
    let state = MonitorState::new();
    assert!(!state.settled);
    assert_eq!(state.failure_count, 0);
    assert!(needs_observation(&state));
}

#[test]
fn fail_twice_then_loaded() {
    let mut state = MonitorState::new();

    let r1 = observe(&mut state, LoadStatus::Failed, &no_resolutions());
    assert_eq!(state.failure_count, 1);
    assert!(!state.settled);
    assert_eq!(r1, vec![Report::LoadFailed { attempt: 1 }]);

    let r2 = observe(&mut state, LoadStatus::Failed, &no_resolutions());
    assert_eq!(state.failure_count, 2);
    assert!(!state.settled);
    assert_eq!(r2, vec![Report::LoadFailed { attempt: 2 }]);

    let r3 = observe(&mut state, LoadStatus::Loaded, &no_resolutions());
    assert!(state.settled);
    assert_eq!(state.failure_count, 2);
    assert_eq!(r3, vec![Report::LoadedOk { resolved: None }]);

    let before = state;
    let r4 = observe(&mut state, LoadStatus::Loaded, &no_resolutions());
    assert_eq!(state, before);
    assert!(r4.is_empty());
}

#[test]
fn three_failures_exhaust_retries() {
    let mut state = MonitorState::new();

    observe(&mut state, LoadStatus::Failed, &no_resolutions());
    observe(&mut state, LoadStatus::Failed, &no_resolutions());
    assert!(!state.settled);

    let r3 = observe(&mut state, LoadStatus::Failed, &no_resolutions());
    assert!(state.settled);
    assert_eq!(state.failure_count, RETRY_LIMIT);
    assert_eq!(
        r3,
        vec![
            Report::LoadFailed { attempt: 3 },
            Report::Unavailable { attempts: 3 },
        ]
    );
    let terminal = r3
        .iter()
        .filter(|r| matches!(r, Report::Unavailable { .. }))
        .count();
    assert_eq!(terminal, 1);

    // Once exhausted, later frames stay silent and never repeat the
    // terminal diagnostic.
    let r4 = observe(&mut state, LoadStatus::Failed, &no_resolutions());
    assert!(r4.is_empty());
    assert_eq!(state.failure_count, RETRY_LIMIT);
    let r5 = observe(&mut state, LoadStatus::Loaded, &no_resolutions());
    assert!(r5.is_empty());
}

#[test]
fn settled_monitor_is_silent() {
    let mut state = MonitorState::new();
    observe(&mut state, LoadStatus::Loaded, &no_resolutions());
    assert!(state.settled);
    assert!(!needs_observation(&state));

    for status in [
        LoadStatus::NotStarted,
        LoadStatus::Loading,
        LoadStatus::Loaded,
        LoadStatus::Failed,
        LoadStatus::Unloaded,
    ] {
        let before = state;
        let reports = observe(&mut state, status, &vec![Some(4), None]);
        assert!(reports.is_empty());
        assert_eq!(state, before);
    }
}

#[test]
fn quiet_statuses_leave_state_alone() {
    let mut state = MonitorState::new();

    let r = observe(&mut state, LoadStatus::NotStarted, &no_resolutions());
    assert_eq!(r, vec![Report::NotYetStarted]);
    assert_eq!(state, MonitorState::new());

    let r = observe(&mut state, LoadStatus::Loading, &no_resolutions());
    assert_eq!(r, vec![Report::InProgress]);
    assert_eq!(state, MonitorState::new());

    let r = observe(&mut state, LoadStatus::Unloaded, &no_resolutions());
    assert_eq!(r, vec![Report::Unloaded]);
    assert_eq!(state, MonitorState::new());
}

#[test]
fn resolution_settles_while_still_loading() {
    let mut state = MonitorState::new();
    observe(&mut state, LoadStatus::Failed, &no_resolutions());
    assert_eq!(state.failure_count, 1);

    let reports = observe(&mut state, LoadStatus::Loading, &vec![None, Some(7)]);
    assert!(state.settled);
    assert_eq!(state.failure_count, 1);
    assert_eq!(
        reports,
        vec![
            Report::InProgress,
            Report::AwaitingResolution,
            Report::Resolved { entities: 7 },
        ]
    );

    // The failure branch can no longer grow the count.
    let later = observe(&mut state, LoadStatus::Failed, &no_resolutions());
    assert!(later.is_empty());
    assert_eq!(state.failure_count, 1);
}

#[test]
fn unresolved_markers_only_report() {
    let mut state = MonitorState::new();
    let reports = observe(&mut state, LoadStatus::Loading, &vec![None, None]);
    assert!(!state.settled);
    assert_eq!(
        reports,
        vec![
            Report::InProgress,
            Report::AwaitingResolution,
            Report::AwaitingResolution,
        ]
    );
}

#[test]
fn loaded_with_resolved_payload_carries_count() {
    let mut state = MonitorState::new();
    let reports = observe(&mut state, LoadStatus::Loaded, &vec![None, Some(12), Some(3)]);
    assert!(state.settled);
    assert_eq!(
        reports,
        vec![
            Report::LoadedOk { resolved: Some(12) },
            Report::AwaitingResolution,
            Report::Resolved { entities: 12 },
            Report::Resolved { entities: 3 },
        ]
    );
}

#[test]
fn failure_then_resolution_in_same_frame_settles() {
    let mut state = MonitorState::new();
    let reports = observe(&mut state, LoadStatus::Failed, &vec![Some(2)]);
    assert!(state.settled);
    assert_eq!(state.failure_count, 1);
    assert_eq!(
        reports,
        vec![
            Report::LoadFailed { attempt: 1 },
            Report::Resolved { entities: 2 },
        ]
    );
}
