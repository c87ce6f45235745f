//! Runtime supervisor: describes one launch attempt of the embedded runtime.
//!
//! The spawn itself is an operating-system call made on a detached worker
//! thread outside this crate; the worker hands back a [`SpawnOutcome`] as a
//! plain value.  This module fixes the log lines the supervisor emits for
//! the attempt, and states that a failed spawn is non-fatal: whatever the
//! outcome, the shell is told to proceed.

use vstd::prelude::*;

verus! {

/// What became of the one spawn attempt: either the child process came
/// into existence, or the operating system refused it (executable missing,
/// not executable, resources exhausted) with an error text.
#[derive(Clone, Debug, PartialEq, Eq)]
pub enum SpawnOutcome {
    /// The child process was started; no handle is retained.
    Started,
    /// The spawn failed; the payload is the operating system's error text.
    Failed(String),
}

/// The line logged before the spawn attempt is made.
pub open spec fn banner_text() -> Seq<char> {
    "[Next SSR] Iniciando servidor interno..."@
}

/// The line logged for a launch attempt with the given outcome: a fixed
/// success line, or the failure line carrying the operating system's error
/// text.
pub open spec fn outcome_log_text(outcome: SpawnOutcome) -> Seq<char> {
    match outcome {
        SpawnOutcome::Started => "[Next SSR] Servidor iniciado."@,
        SpawnOutcome::Failed(err) => "[Next SSR] Falha ao iniciar servidor: "@ + err@,
    }
}

/// The log line announcing that a spawn attempt is about to be made.
pub fn startup_banner() -> (r: String)
    ensures
        r@ == banner_text(),
{
    String::from_str("[Next SSR] Iniciando servidor interno...")
}

/// Renders the log line for the given spawn outcome.
pub fn outcome_log_line(outcome: &SpawnOutcome) -> (r: String)
    ensures
        r@ == outcome_log_text(*outcome),
{
    match outcome {
        SpawnOutcome::Started => String::from_str("[Next SSR] Servidor iniciado."),
        SpawnOutcome::Failed(err) => {
            let mut line = String::from_str("[Next SSR] Falha ao iniciar servidor: ");
            line.append(err.as_str());
            line
        },
    }
}

/// Decides what the shell does after a launch attempt: the log line for the
/// outcome, and whether the shell proceeds to present its window.  A failed
/// spawn is non-fatal — it only degrades the embedded backend — so the
/// shell proceeds on every outcome.
pub fn supervise_outcome(outcome: &SpawnOutcome) -> (r: (String, bool))
    ensures
        r.0@ == outcome_log_text(*outcome),
        r.1,
{
    (outcome_log_line(outcome), true)
}

} // verus!
