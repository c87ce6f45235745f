//! Shell bootstrap: the startup protocol of the native shell, as an
//! explicit state machine.
//!
//! Startup first asks the operating system for the installation location.
//! If that fails, startup aborts — before any window is created and before
//! any spawn attempt is made.  Once the location is known, two things
//! happen with no ordering between them: the main thread creates the
//! window, and a detached worker thread attempts the spawn.  The machine
//! accepts those two events in either order, and a spawn failure never
//! withdraws the shell's permission to present its window.
//!
//! Out-of-protocol events (a window before the location is known, a second
//! resolution) leave the state unchanged.

use crate::supervisor::SpawnOutcome;
use vstd::prelude::*;

verus! {

/// What the bootstrap has observed so far.
#[derive(Clone, Debug, PartialEq, Eq)]
pub struct ShellState {
    /// Startup was aborted: the installation location could not be
    /// determined, so no further supervision is meaningful.
    pub aborted: bool,
    /// The installation directory, once the operating system reported it.
    pub location: Option<String>,
    /// The main thread has created the shell window.
    pub window_created: bool,
    /// The worker thread's one spawn attempt has finished, with this
    /// outcome.
    pub spawn_outcome: Option<SpawnOutcome>,
}

/// One observation made during startup.
#[derive(Debug, PartialEq, Eq)]
pub enum ShellEvent {
    /// The operating system reported the installation directory.
    LocationDetermined(String),
    /// The operating system could not report the running executable's
    /// location.
    LocationUnknown,
    /// The main thread created the shell window.
    WindowCreated,
    /// The worker thread's spawn attempt finished with this outcome.
    SpawnCompleted(SpawnOutcome),
}

/// The state in which startup begins: nothing observed yet.
pub open spec fn shell_init_spec() -> ShellState {
    ShellState { aborted: false, location: None, window_created: false, spawn_outcome: None }
}

/// The transition relation of the bootstrap.  Resolution happens first and
/// once; its failure aborts.  Window creation and spawn completion each
/// require a known location and may arrive in either order.  Everything
/// else leaves the state unchanged.
pub open spec fn shell_step_spec(s: ShellState, e: ShellEvent) -> ShellState {
    match e {
        ShellEvent::LocationDetermined(d) => if s.aborted || s.location is Some {
            s
        } else {
            ShellState { location: Some(d), ..s }
        },
        ShellEvent::LocationUnknown => if s.aborted || s.location is Some || s.window_created
            || s.spawn_outcome is Some {
            s
        } else {
            ShellState { aborted: true, ..s }
        },
        ShellEvent::WindowCreated => if s.aborted || s.location is None || s.window_created {
            s
        } else {
            ShellState { window_created: true, ..s }
        },
        ShellEvent::SpawnCompleted(o) => if s.aborted || s.location is None
            || s.spawn_outcome is Some {
            s
        } else {
            ShellState { spawn_outcome: Some(o), ..s }
        },
    }
}

/// The state reached from `s` after the events, applied in order.
pub open spec fn shell_run(s: ShellState, events: Seq<ShellEvent>) -> ShellState
    decreases events.len(),
{
    if events.len() == 0 {
        s
    } else {
        shell_run(shell_step_spec(s, events[0]), events.drop_first())
    }
}

/// An aborted startup observed nothing: no location, no window, no spawn.
pub open spec fn shell_inv(s: ShellState) -> bool {
    s.aborted ==> s.location is None && !s.window_created && s.spawn_outcome is None
}

proof fn lemma_step_preserves_inv(s: ShellState, e: ShellEvent)
    requires
        shell_inv(s),
    ensures
        shell_inv(shell_step_spec(s, e)),
{
}

/// Law: if startup ends aborted, no window was ever created and no spawn
/// attempt was ever made — for every sequence of events from the initial
/// state.  A failed location query stops the shell before its window and
/// before the runtime launch.
pub proof fn lemma_abort_precludes_window_and_spawn(events: Seq<ShellEvent>)
    ensures
        shell_inv(shell_run(shell_init_spec(), events)),
{
    lemma_run_preserves_inv(shell_init_spec(), events);
}

proof fn lemma_run_preserves_inv(s: ShellState, events: Seq<ShellEvent>)
    requires
        shell_inv(s),
    ensures
        shell_inv(shell_run(s, events)),
    decreases events.len(),
{
    if events.len() > 0 {
        lemma_step_preserves_inv(s, events[0]);
        lemma_run_preserves_inv(shell_step_spec(s, events[0]), events.drop_first());
    }
}

/// Law: window creation and spawn completion commute — from any state, the
/// two events lead to the same state in either order, so the design
/// enforces no ordering between the main thread's window and the worker
/// thread's spawn.
pub proof fn lemma_window_spawn_commute(s: ShellState, o: SpawnOutcome)
    ensures
        shell_step_spec(shell_step_spec(s, ShellEvent::WindowCreated), ShellEvent::SpawnCompleted(o))
            == shell_step_spec(
            shell_step_spec(s, ShellEvent::SpawnCompleted(o)),
            ShellEvent::WindowCreated,
        ),
{
}

/// Whether the shell may present its window: startup was not aborted, the
/// location is known, and the window is not already there.
pub open spec fn may_create_window(s: ShellState) -> bool {
    !s.aborted && s.location is Some && !s.window_created
}

/// Law: a spawn completion — success or failure alike — neither creates
/// nor withdraws the shell's permission to present its window, and leaves
/// any window already created in place.  A broken embedded runtime
/// degrades the shell; it never stops it.
pub proof fn lemma_spawn_outcome_never_blocks_window(s: ShellState, o: SpawnOutcome)
    ensures
        may_create_window(shell_step_spec(s, ShellEvent::SpawnCompleted(o))) == may_create_window(
            s,
        ),
        shell_step_spec(s, ShellEvent::SpawnCompleted(o)).window_created == s.window_created,
        shell_step_spec(s, ShellEvent::SpawnCompleted(o)).aborted == s.aborted,
{
}

impl ShellState {
    /// The state in which startup begins.
    pub fn init() -> (r: ShellState)
        ensures
            r == shell_init_spec(),
    {
        ShellState { aborted: false, location: None, window_created: false, spawn_outcome: None }
    }

    /// Applies one observed event to the state.
    pub fn step(self, e: ShellEvent) -> (next: ShellState)
        ensures
            next == shell_step_spec(self, e),
    {
        match e {
            ShellEvent::LocationDetermined(d) => {
                if self.aborted || self.location.is_some() {
                    self
                } else {
                    ShellState { location: Some(d), ..self }
                }
            },
            ShellEvent::LocationUnknown => {
                if self.aborted || self.location.is_some() || self.window_created
                    || self.spawn_outcome.is_some() {
                    self
                } else {
                    ShellState { aborted: true, ..self }
                }
            },
            ShellEvent::WindowCreated => {
                if self.aborted || self.location.is_none() || self.window_created {
                    self
                } else {
                    ShellState { window_created: true, ..self }
                }
            },
            ShellEvent::SpawnCompleted(o) => {
                if self.aborted || self.location.is_none() || self.spawn_outcome.is_some() {
                    self
                } else {
                    ShellState { spawn_outcome: Some(o), ..self }
                }
            },
        }
    }
}

} // verus!
