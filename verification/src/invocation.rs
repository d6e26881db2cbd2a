//! The values a single bridge invocation is built from: the execution mode,
//! the event the operating system reported about the external process, and
//! the result delivered to the caller.

use vstd::prelude::*;

verus! {

/// The execution mode of the bridge, fixed once per deployment.
#[derive(Clone, Copy, PartialEq, Eq, Structural, Debug)]
pub enum ExecMode {
    /// Wait for the external process to exit and capture both of its output
    /// streams in full before returning.
    BlockingCapture,
    /// Return immediately after the process is started, without waiting for
    /// it or capturing anything; the process runs on, detached.
    Detached,
}

/// The outcome of one invocation as delivered to the caller: the processed
/// output on success, a descriptive message on failure. One such value is
/// delivered per call; nothing is streamed or delivered partially.
#[derive(Debug, PartialEq, Eq)]
pub enum InvocationResult {
    Success(String),
    Failure(String),
}

/// The mathematical value of an [`InvocationResult`]: the same tag over the
/// character sequence it carries.
pub enum ResultView {
    Success(Seq<char>),
    Failure(Seq<char>),
}

impl View for InvocationResult {
    type V = ResultView;

    open spec fn view(&self) -> ResultView {
        match self {
            InvocationResult::Success(output) => ResultView::Success(output@),
            InvocationResult::Failure(message) => ResultView::Failure(message@),
        }
    }
}

/// What the operating system reported about the external process, as far as
/// the bridge observes it in its execution mode.
#[derive(Debug, PartialEq, Eq)]
pub enum ProcessEvent {
    /// The process could not be started at all; carries the description of
    /// the underlying operating-system error.
    SpawnFailed { error: String },
    /// The process was started and at once left to itself; nothing further
    /// about it is ever observed.
    Spawned,
    /// The process was started and awaited to its natural exit, with both
    /// output streams captured in full.
    Completed { exit_success: bool, stdout: Vec<u8>, stderr: Vec<u8> },
}

/// The mathematical value of a [`ProcessEvent`], with the captured streams
/// as byte sequences.
pub enum EventView {
    SpawnFailed { error: Seq<char> },
    Spawned,
    Completed { exit_success: bool, stdout: Seq<u8>, stderr: Seq<u8> },
}

impl View for ProcessEvent {
    type V = EventView;

    open spec fn view(&self) -> EventView {
        match self {
            ProcessEvent::SpawnFailed { error } => EventView::SpawnFailed { error: error@ },
            ProcessEvent::Spawned => EventView::Spawned,
            ProcessEvent::Completed { exit_success, stdout, stderr } => EventView::Completed {
                exit_success: *exit_success,
                stdout: stdout@,
                stderr: stderr@,
            },
        }
    }
}

/// The fixed acknowledgment a detached invocation returns in place of the
/// process's own output.
pub open spec fn detached_ack() -> Seq<char> {
    "Parser started in background."@
}

/// The message delivered when the external process could not be started: a
/// fixed prefix followed by the operating system's error description.
pub open spec fn spawn_failure_message(error: Seq<char>) -> Seq<char> {
    "Failed to start parser: "@ + error
}

} // verus!
