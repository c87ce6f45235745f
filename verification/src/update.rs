//! Update lifecycle coordinator: the check / confirm / install / relaunch
//! flow, as an explicit state machine.
//!
//! The three capabilities it coordinates — update discovery, the user's
//! yes/no confirmation, and the process relaunch — are pluggable
//! collaborators outside this crate.  The machine enforces the ordering
//! contract between them: discovery must complete before confirmation is
//! requested, confirmation must be affirmative before any download or
//! install proceeds, and the relaunch happens only after a successful
//! install.  A failure while checking, downloading or installing returns
//! the flow to idle and is surfaced to the user; it is never fatal to the
//! running version.
//!
//! Out-of-protocol events (a confirmation while idle, a second check
//! outcome) leave the state unchanged and ask for nothing.

use vstd::prelude::*;

verus! {

/// Where the update flow stands.
#[derive(Clone, Copy, Debug, PartialEq, Eq, Structural)]
pub enum UpdateState {
    /// No update activity; a check may be requested.
    Idle,
    /// Discovery is running and has not reported yet.
    Checking,
    /// Discovery reported an update; the user has not decided yet.
    Available,
    /// The user accepted; the update is being downloaded.
    Downloading,
    /// The download finished; the update is being installed.
    Installing,
    /// The install succeeded; the process is to be terminated and
    /// restarted, which re-runs startup from scratch.
    ReadyToRelaunch,
}

/// One report from a collaborator, or the external trigger.
#[derive(Debug, PartialEq, Eq)]
pub enum UpdateEvent {
    /// The application or the user asked for an update check.
    CheckRequested,
    /// Discovery finished with a definitive outcome: `true` when an update
    /// is available, `false` when the running version is current.
    CheckCompleted(bool),
    /// Discovery failed, with an error text for the user.
    CheckFailed(String),
    /// The confirmation dialog returned the user's decision.
    Confirmed(bool),
    /// The download finished.
    DownloadCompleted,
    /// The download failed, with an error text for the user.
    DownloadFailed(String),
    /// The install finished.
    InstallCompleted,
    /// The install failed, with an error text for the user.
    InstallFailed(String),
}

/// What the coordinator asks its collaborators to do next.
#[derive(Debug, PartialEq, Eq)]
pub enum UpdateAction {
    /// Nothing to do.
    DoNothing,
    /// Ask the discovery plugin whether an update is available.
    BeginCheck,
    /// Ask the confirmation dialog for the user's decision.
    AskConfirmation,
    /// Ask the update plugin to download the update.
    BeginDownload,
    /// Ask the update plugin to install the downloaded update.
    BeginInstall,
    /// Ask the process plugin to terminate and restart the shell.
    Relaunch,
    /// Surface this error text to the user.
    ReportError(String),
}

/// The transition relation of the update flow: from a state and an event
/// to the next state and the action the coordinator requests.
pub open spec fn update_step_spec(s: UpdateState, e: UpdateEvent) -> (UpdateState, UpdateAction) {
    match (s, e) {
        (UpdateState::Idle, UpdateEvent::CheckRequested) => (
            UpdateState::Checking,
            UpdateAction::BeginCheck,
        ),
        (UpdateState::Checking, UpdateEvent::CheckCompleted(avail)) => if avail {
            (UpdateState::Available, UpdateAction::AskConfirmation)
        } else {
            (UpdateState::Idle, UpdateAction::DoNothing)
        },
        (UpdateState::Checking, UpdateEvent::CheckFailed(err)) => (
            UpdateState::Idle,
            UpdateAction::ReportError(err),
        ),
        (UpdateState::Available, UpdateEvent::Confirmed(yes)) => if yes {
            (UpdateState::Downloading, UpdateAction::BeginDownload)
        } else {
            (UpdateState::Idle, UpdateAction::DoNothing)
        },
        (UpdateState::Downloading, UpdateEvent::DownloadCompleted) => (
            UpdateState::Installing,
            UpdateAction::BeginInstall,
        ),
        (UpdateState::Downloading, UpdateEvent::DownloadFailed(err)) => (
            UpdateState::Idle,
            UpdateAction::ReportError(err),
        ),
        (UpdateState::Installing, UpdateEvent::InstallCompleted) => (
            UpdateState::ReadyToRelaunch,
            UpdateAction::Relaunch,
        ),
        (UpdateState::Installing, UpdateEvent::InstallFailed(err)) => (
            UpdateState::Idle,
            UpdateAction::ReportError(err),
        ),
        _ => (s, UpdateAction::DoNothing),
    }
}

/// The actions requested while the events are applied in order, one per
/// event.
pub open spec fn update_actions(s: UpdateState, events: Seq<UpdateEvent>) -> Seq<UpdateAction>
    decreases events.len(),
{
    if events.len() == 0 {
        Seq::empty()
    } else {
        seq![update_step_spec(s, events[0]).1] + update_actions(
            update_step_spec(s, events[0]).0,
            events.drop_first(),
        )
    }
}

/// The state of the flow after the events, applied in order.
pub open spec fn update_run(s: UpdateState, events: Seq<UpdateEvent>) -> UpdateState
    decreases events.len(),
{
    if events.len() == 0 {
        s
    } else {
        update_run(update_step_spec(s, events[0]).0, events.drop_first())
    }
}

/// The flow has not passed the user's decision: no download, install or
/// relaunch has been reached.
pub open spec fn before_user_decision(s: UpdateState) -> bool {
    s == UpdateState::Idle || s == UpdateState::Checking || s == UpdateState::Available
}

/// An action that moves the update forward: a download, an install, or the
/// relaunch.
pub open spec fn proceeds_with_update(a: UpdateAction) -> bool {
    a == UpdateAction::BeginDownload || a == UpdateAction::BeginInstall || a
        == UpdateAction::Relaunch
}

/// Law: confirmation is requested exactly when discovery, while it was
/// running, reported an update as available — never before discovery has
/// completed with a definitive outcome.
pub proof fn lemma_confirmation_only_after_discovery(s: UpdateState, e: UpdateEvent)
    ensures
        update_step_spec(s, e).1 == UpdateAction::AskConfirmation <==> (s == UpdateState::Checking
            && e == UpdateEvent::CheckCompleted(true)),
{
}

/// Law: the download begins exactly when the user, asked while an update
/// was available, confirmed it — never on a declined or absent
/// confirmation.
pub proof fn lemma_download_only_after_confirmation(s: UpdateState, e: UpdateEvent)
    ensures
        update_step_spec(s, e).1 == UpdateAction::BeginDownload <==> (s == UpdateState::Available
            && e == UpdateEvent::Confirmed(true)),
{
}

/// Law: the install begins exactly when the download completed, and the
/// relaunch is requested exactly when the install completed — never
/// before.
pub proof fn lemma_install_and_relaunch_ordering(s: UpdateState, e: UpdateEvent)
    ensures
        update_step_spec(s, e).1 == UpdateAction::BeginInstall <==> (s == UpdateState::Downloading
            && e == UpdateEvent::DownloadCompleted),
        update_step_spec(s, e).1 == UpdateAction::Relaunch <==> (s == UpdateState::Installing
            && e == UpdateEvent::InstallCompleted),
{
}

/// Law: a failure while checking, downloading or installing returns the
/// flow to idle and surfaces the error to the user; a future check remains
/// possible from idle.
pub proof fn lemma_failure_returns_to_idle(err: String)
    ensures
        update_step_spec(UpdateState::Checking, UpdateEvent::CheckFailed(err)) == (
            UpdateState::Idle,
            UpdateAction::ReportError(err),
        ),
        update_step_spec(UpdateState::Downloading, UpdateEvent::DownloadFailed(err)) == (
            UpdateState::Idle,
            UpdateAction::ReportError(err),
        ),
        update_step_spec(UpdateState::Installing, UpdateEvent::InstallFailed(err)) == (
            UpdateState::Idle,
            UpdateAction::ReportError(err),
        ),
        update_step_spec(UpdateState::Idle, UpdateEvent::CheckRequested) == (
            UpdateState::Checking,
            UpdateAction::BeginCheck,
        ),
{
}

/// Law: a declined confirmation returns the flow to idle with nothing
/// further requested, and from idle a future check is accepted.
pub proof fn lemma_decline_returns_to_idle()
    ensures
        update_step_spec(UpdateState::Available, UpdateEvent::Confirmed(false)) == (
            UpdateState::Idle,
            UpdateAction::DoNothing,
        ),
        update_step_spec(UpdateState::Idle, UpdateEvent::CheckRequested) == (
            UpdateState::Checking,
            UpdateAction::BeginCheck,
        ),
{
}

/// Law: as long as the user has not confirmed — over any sequence of
/// events holding no affirmative confirmation — the coordinator never
/// requests a download, an install or the relaunch.
pub proof fn lemma_nothing_proceeds_before_confirmation(s: UpdateState, events: Seq<UpdateEvent>)
    requires
        before_user_decision(s),
        forall|i: int|
            0 <= i < events.len() ==> (#[trigger] events[i]) != UpdateEvent::Confirmed(true),
    ensures
        before_user_decision(update_run(s, events)),
        forall|i: int|
            0 <= i < update_actions(s, events).len() ==> !proceeds_with_update(
                #[trigger] update_actions(s, events)[i],
            ),
    decreases events.len(),
{
    if events.len() > 0 {
        let s1 = update_step_spec(s, events[0]).0;
        let tail = events.drop_first();
        assert(before_user_decision(s1));
        assert forall|j: int|
            0 <= j < tail.len() implies (#[trigger] tail[j]) != UpdateEvent::Confirmed(true) by {
            assert(tail[j] == events[j + 1]);
        }
        lemma_nothing_proceeds_before_confirmation(s1, tail);
        assert forall|i: int|
            0 <= i < update_actions(s, events).len() implies !proceeds_with_update(
            #[trigger] update_actions(s, events)[i],
        ) by {
            if i > 0 {
                assert(update_actions(s, events)[i] == update_actions(s1, tail)[i - 1]);
            }
        }
    }
}

/// After a successful install, the flow is terminal: the process is about
/// to be terminated, so every further event is ignored and nothing more is
/// requested.
proof fn lemma_ready_absorbs(events: Seq<UpdateEvent>)
    ensures
        update_run(UpdateState::ReadyToRelaunch, events) == UpdateState::ReadyToRelaunch,
        forall|i: int|
            0 <= i < update_actions(UpdateState::ReadyToRelaunch, events).len() ==> (
            #[trigger] update_actions(UpdateState::ReadyToRelaunch, events)[i])
                == UpdateAction::DoNothing,
    decreases events.len(),
{
    if events.len() > 0 {
        lemma_ready_absorbs(events.drop_first());
        assert forall|i: int|
            0 <= i < update_actions(UpdateState::ReadyToRelaunch, events).len() implies (
        #[trigger] update_actions(UpdateState::ReadyToRelaunch, events)[i])
            == UpdateAction::DoNothing by {
            if i > 0 {
                assert(update_actions(UpdateState::ReadyToRelaunch, events)[i] == update_actions(
                    UpdateState::ReadyToRelaunch,
                    events.drop_first(),
                )[i - 1]);
            }
        }
    }
}

/// Law: over any sequence of events from any state, the relaunch is
/// requested at most once — once the install succeeded and the relaunch
/// was asked for, the flow is terminal and asks for nothing further.
pub proof fn lemma_relaunch_at_most_once(s: UpdateState, events: Seq<UpdateEvent>)
    ensures
        forall|i: int, j: int|
            0 <= i < j < update_actions(s, events).len() ==> !((#[trigger] update_actions(
                s,
                events,
            )[i]) == UpdateAction::Relaunch && (#[trigger] update_actions(s, events)[j])
                == UpdateAction::Relaunch),
    decreases events.len(),
{
    if events.len() > 0 {
        let s1 = update_step_spec(s, events[0]).0;
        let a0 = update_step_spec(s, events[0]).1;
        let tail = events.drop_first();
        lemma_relaunch_at_most_once(s1, tail);
        if a0 == UpdateAction::Relaunch {
            assert(s1 == UpdateState::ReadyToRelaunch);
            lemma_ready_absorbs(tail);
        }
        assert forall|i: int, j: int|
            0 <= i < j < update_actions(s, events).len() implies !((#[trigger] update_actions(
            s,
            events,
        )[i]) == UpdateAction::Relaunch && (#[trigger] update_actions(s, events)[j])
            == UpdateAction::Relaunch) by {
            assert(update_actions(s, events)[j] == update_actions(s1, tail)[j - 1]);
            if i > 0 {
                assert(update_actions(s, events)[i] == update_actions(s1, tail)[i - 1]);
            }
        }
    }
}

/// Applies one report to the flow and returns the next state and the
/// requested action.
pub fn update_step(s: UpdateState, e: UpdateEvent) -> (r: (UpdateState, UpdateAction))
    ensures
        r == update_step_spec(s, e),
{
    match (s, e) {
        (UpdateState::Idle, UpdateEvent::CheckRequested) => (
            UpdateState::Checking,
            UpdateAction::BeginCheck,
        ),
        (UpdateState::Checking, UpdateEvent::CheckCompleted(avail)) => {
            if avail {
                (UpdateState::Available, UpdateAction::AskConfirmation)
            } else {
                (UpdateState::Idle, UpdateAction::DoNothing)
            }
        },
        (UpdateState::Checking, UpdateEvent::CheckFailed(err)) => (
            UpdateState::Idle,
            UpdateAction::ReportError(err),
        ),
        (UpdateState::Available, UpdateEvent::Confirmed(yes)) => {
            if yes {
                (UpdateState::Downloading, UpdateAction::BeginDownload)
            } else {
                (UpdateState::Idle, UpdateAction::DoNothing)
            }
        },
        (UpdateState::Downloading, UpdateEvent::DownloadCompleted) => (
            UpdateState::Installing,
            UpdateAction::BeginInstall,
        ),
        (UpdateState::Downloading, UpdateEvent::DownloadFailed(err)) => (
            UpdateState::Idle,
            UpdateAction::ReportError(err),
        ),
        (UpdateState::Installing, UpdateEvent::InstallCompleted) => (
            UpdateState::ReadyToRelaunch,
            UpdateAction::Relaunch,
        ),
        (UpdateState::Installing, UpdateEvent::InstallFailed(err)) => (
            UpdateState::Idle,
            UpdateAction::ReportError(err),
        ),
        (st, _) => (st, UpdateAction::DoNothing),
    }
}

} // verus!
