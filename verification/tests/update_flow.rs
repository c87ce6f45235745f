use dls_ecommerce::update::{update_step, UpdateAction, UpdateEvent, UpdateState};

fn run_flow(events: Vec<UpdateEvent>) -> (UpdateState, Vec<UpdateAction>) {
    let mut state = UpdateState::Idle;
    let mut actions = Vec::new();
    for e in events {
        let (next, action) = update_step(state, e);
        state = next;
        actions.push(action);
    }
    (state, actions)
}

#[test]
fn accepted_update_relaunches_exactly_once() {
    let (state, actions) = run_flow(vec![
        UpdateEvent::CheckRequested,
        UpdateEvent::CheckCompleted(true),
        UpdateEvent::Confirmed(true),
        UpdateEvent::DownloadCompleted,
        UpdateEvent::InstallCompleted,
    ]);
    assert_eq!(state, UpdateState::ReadyToRelaunch);
    assert_eq!(
        actions,
        vec![
            UpdateAction::BeginCheck,
            UpdateAction::AskConfirmation,
            UpdateAction::BeginDownload,
            UpdateAction::BeginInstall,
            UpdateAction::Relaunch,
        ]
    );
    let relaunches = actions
        .iter()
        .filter(|a| matches!(a, UpdateAction::Relaunch))
        .count();
    assert_eq!(relaunches, 1);
    // Nothing is downloaded or installed before the confirmation returns
    // true: the first two actions are the check and the question alone.
    for a in &actions[..2] {
        assert!(!matches!(
            a,
            UpdateAction::BeginDownload | UpdateAction::BeginInstall | UpdateAction::Relaunch
        ));
    }
}

#[test]
fn declined_update_returns_to_idle() {
    let (state, actions) = run_flow(vec![
        UpdateEvent::CheckRequested,
        UpdateEvent::CheckCompleted(true),
        UpdateEvent::Confirmed(false),
    ]);
    assert_eq!(state, UpdateState::Idle);
    for a in &actions {
        assert!(!matches!(
            a,
            UpdateAction::BeginDownload | UpdateAction::BeginInstall | UpdateAction::Relaunch
        ));
    }
    // A future check is possible from idle.
    let (next, action) = update_step(state, UpdateEvent::CheckRequested);
    assert_eq!(next, UpdateState::Checking);
    assert_eq!(action, UpdateAction::BeginCheck);
}

#[test]
fn current_version_returns_to_idle_silently() {
    let (state, actions) = run_flow(vec![
        UpdateEvent::CheckRequested,
        UpdateEvent::CheckCompleted(false),
    ]);
    assert_eq!(state, UpdateState::Idle);
    assert_eq!(actions[1], UpdateAction::DoNothing);
}

#[test]
fn check_failure_is_surfaced_and_returns_to_idle() {
    let (state, action) = update_step(
        UpdateState::Checking,
        UpdateEvent::CheckFailed(String::from("connection refused")),
    );
    assert_eq!(state, UpdateState::Idle);
    assert_eq!(
        action,
        UpdateAction::ReportError(String::from("connection refused"))
    );
}

#[test]
fn download_failure_is_surfaced_and_returns_to_idle() {
    let (state, action) = update_step(
        UpdateState::Downloading,
        UpdateEvent::DownloadFailed(String::from("checksum mismatch")),
    );
    assert_eq!(state, UpdateState::Idle);
    assert_eq!(
        action,
        UpdateAction::ReportError(String::from("checksum mismatch"))
    );
}

#[test]
fn install_failure_is_surfaced_and_returns_to_idle() {
    let (state, action) = update_step(
        UpdateState::Installing,
        UpdateEvent::InstallFailed(String::from("disk full")),
    );
    assert_eq!(state, UpdateState::Idle);
    assert_eq!(action, UpdateAction::ReportError(String::from("disk full")));
}

#[test]
fn out_of_protocol_events_are_ignored() {
    let (state, action) = update_step(UpdateState::Idle, UpdateEvent::Confirmed(true));
    assert_eq!(state, UpdateState::Idle);
    assert_eq!(action, UpdateAction::DoNothing);
    let (state, action) = update_step(UpdateState::Idle, UpdateEvent::DownloadCompleted);
    assert_eq!(state, UpdateState::Idle);
    assert_eq!(action, UpdateAction::DoNothing);
    let (state, action) = update_step(UpdateState::Checking, UpdateEvent::InstallCompleted);
    assert_eq!(state, UpdateState::Checking);
    assert_eq!(action, UpdateAction::DoNothing);
}

#[test]
fn ready_to_relaunch_is_terminal() {
    let (state, action) = update_step(UpdateState::ReadyToRelaunch, UpdateEvent::CheckRequested);
    assert_eq!(state, UpdateState::ReadyToRelaunch);
    assert_eq!(action, UpdateAction::DoNothing);
    let (state, action) = update_step(
        UpdateState::ReadyToRelaunch,
        UpdateEvent::InstallCompleted,
    );
    assert_eq!(state, UpdateState::ReadyToRelaunch);
    assert_eq!(action, UpdateAction::DoNothing);
}
