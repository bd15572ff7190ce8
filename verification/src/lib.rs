//! Measures the wall-clock, user-mode and kernel-mode CPU time consumed by an
//! external command and every process it transitively spawns.
//!
//! The command is created suspended, placed into a kernel grouping object that
//! is bound to a notification channel, resumed, and then waited on until the
//! group reports that no member process remains active; the group's aggregate
//! CPU accounting is read before the group is torn down.  This crate holds the
//! verified core of that protocol: the run state machine with its handle
//! ledger, the wait-loop decision, tick arithmetic, duration formatting,
//! command-line marshaling and option parsing.  The operating-system calls
//! themselves live in the accompanying driver, which feeds their outcomes to
//! the state machine as plain values.

pub mod args;
pub mod cmdline;
pub mod errors;
pub mod events;
pub mod render;
pub mod session;
pub mod timing;
