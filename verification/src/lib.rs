//! Verified core of a developer port utility: it answers which process owns a
//! TCP/UDP port, classifies the process's runtime, and reports the outcome of
//! a forced termination, wrapping every operation in a uniform
//! success/error/suggestion envelope.
//!
//! OS commands are spawned by the surrounding application; this crate holds
//! the logic: parsing the command output into a process id, inspecting the
//! process table, the framework heuristics, the failure taxonomy, and the
//! orchestration of the three public operations.

pub mod classify;
pub mod digits;
pub mod envelope;
pub mod inspect;
pub mod ops;
pub mod platform;
pub mod resolve;
pub mod terminate;
pub mod text;
