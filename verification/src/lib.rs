//! Embedded runtime supervisor for a native desktop shell.
//!
//! The shell hosts a locally spawned server process (the embedded runtime)
//! beside its own window, and drives a check / confirm / install / relaunch
//! update flow.  This crate holds the decision logic of that supervisor:
//! resolving the runtime's on-disk location from the installation directory,
//! describing the outcome of a launch attempt, and the two state machines
//! that order startup and the update flow.  The operating-system calls
//! themselves (process creation, the window event loop, the update plugins)
//! live outside, and hand this crate plain values.

pub mod paths;
pub mod shell;
pub mod supervisor;
pub mod update;
