//! A command bridge between a user interface and an external data-processing
//! program.
//!
//! The bridge receives a file path, arranges for an external processor to be
//! run on it, and delivers either the processor's result or its failure back
//! to the caller. Two mutually exclusive execution modes exist, chosen once
//! per deployment: blocking with full capture of the process's output
//! streams, and fire-and-forget, which acknowledges the spawn and detaches.
//!
//! Starting a process is an operating-system effect and lives with the host
//! program; this crate holds everything the bridge decides and computes: the
//! configuration and its validation, the command line handed to the process,
//! and the mapping from the observed process event to the invocation result.

pub mod bridge;
pub mod config;
pub mod invocation;
