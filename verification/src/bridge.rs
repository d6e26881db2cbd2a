//! The heart of the bridge: the invocation policy, and the mapping from the
//! event the operating system reported to the result the caller receives.
//!
//! The host program performs the spawn itself and reports what it observed
//! as a [`ProcessEvent`]; [`run_parser_outcome`] then decides, according to
//! the execution mode, what the caller is told.

use vstd::prelude::*;

use crate::invocation::{
    detached_ack, spawn_failure_message, EventView, ExecMode, InvocationResult, ProcessEvent,
    ResultView,
};

verus! {

/// What `String::from_utf8_lossy` decodes a byte sequence to.
pub uninterp spec fn lossy_decode(bytes: Seq<u8>) -> Seq<char>;

/// Relies on `String::from_utf8_lossy`: the decoded text is a function of
/// the input bytes alone; well-formed UTF-8 decodes to the text it encodes,
/// and each ill-formed sequence is replaced rather than failing the decode.
#[verifier::external_body]
fn decode_lossy(bytes: &[u8]) -> (text: String)
    ensures
        text@ == lossy_decode(bytes@),
{
    String::from_utf8_lossy(bytes).into_owned()
}

/// Which process events an execution mode can observe: a spawn failure in
/// either mode, a bare spawn only when detaching, a captured exit only when
/// blocking. The two modes are mutually exclusive; no deployment mixes them.
pub open spec fn event_fits_mode(mode: ExecMode, event: EventView) -> bool {
    match event {
        EventView::SpawnFailed { .. } => true,
        EventView::Spawned => mode is Detached,
        EventView::Completed { .. } => mode is BlockingCapture,
    }
}

/// The result the bridge owes the caller for an observed process event:
/// a spawn failure is surfaced as `Failure` with the operating system's
/// description appended to a fixed prefix; a detached spawn is acknowledged
/// with a fixed `Success` value; a captured exit yields `Success` with the
/// permissively decoded standard output on exit code zero, and `Failure`
/// with the permissively decoded standard error otherwise.
pub open spec fn bridge_outcome(event: EventView) -> ResultView {
    match event {
        EventView::SpawnFailed { error } => ResultView::Failure(spawn_failure_message(error)),
        EventView::Spawned => ResultView::Success(detached_ack()),
        EventView::Completed { exit_success, stdout, stderr } => if exit_success {
            ResultView::Success(lossy_decode(stdout))
        } else {
            ResultView::Failure(lossy_decode(stderr))
        },
    }
}

/// Surfaces a failure to start the external process. Fatal to the current
/// call in either mode: the caller sees the operating system's description,
/// behind a fixed prefix, and nothing is retried.
pub fn spawn_failure_result(error: &str) -> (result: InvocationResult)
    ensures
        result@ == ResultView::Failure(spawn_failure_message(error@)),
{
    InvocationResult::Failure(String::from_str("Failed to start parser: ").concat(error))
}

/// The blocking-with-capture strategy: the process was awaited, so the
/// caller receives its complete output on success and its complete
/// diagnostic on failure; standard output produced before a failure is
/// discarded.
pub fn run_blocking(event: ProcessEvent) -> (result: InvocationResult)
    requires
        event_fits_mode(ExecMode::BlockingCapture, event@),
    ensures
        result@ == bridge_outcome(event@),
{
    match event {
        ProcessEvent::SpawnFailed { error } => spawn_failure_result(error.as_str()),
        ProcessEvent::Spawned => unreached(),
        ProcessEvent::Completed { exit_success, stdout, stderr } => if exit_success {
            InvocationResult::Success(decode_lossy(stdout.as_slice()))
        } else {
            InvocationResult::Failure(decode_lossy(stderr.as_slice()))
        },
    }
}

/// The fire-and-forget strategy: the spawn is the whole interaction, so a
/// started process is acknowledged with a fixed value and never observed
/// again, and only a failure to start is surfaced.
pub fn run_detached(event: ProcessEvent) -> (result: InvocationResult)
    requires
        event_fits_mode(ExecMode::Detached, event@),
    ensures
        result@ == bridge_outcome(event@),
{
    match event {
        ProcessEvent::SpawnFailed { error } => spawn_failure_result(error.as_str()),
        ProcessEvent::Spawned => InvocationResult::Success(
            String::from_str("Parser started in background."),
        ),
        ProcessEvent::Completed { .. } => unreached(),
    }
}

/// The bridge's one operation, dispatched over the deployment's execution
/// mode: turns the event observed for this call's external process into the
/// result the caller receives.
pub fn run_parser_outcome(mode: ExecMode, event: ProcessEvent) -> (result: InvocationResult)
    requires
        event_fits_mode(mode, event@),
    ensures
        result@ == bridge_outcome(event@),
{
    match mode {
        ExecMode::BlockingCapture => run_blocking(event),
        ExecMode::Detached => run_detached(event),
    }
}

/// Law: in blocking-with-capture mode, a process that signals success by
/// exit code zero yields `Success` carrying exactly its standard-output
/// bytes, permissively decoded — whatever stood on standard error.
pub proof fn lemma_blocking_success_is_stdout(stdout: Seq<u8>, stderr: Seq<u8>)
    ensures
        bridge_outcome(EventView::Completed { exit_success: true, stdout, stderr })
            == ResultView::Success(lossy_decode(stdout)),
{
}

/// Law: in blocking-with-capture mode, a process that exits nonzero yields
/// `Failure` carrying exactly its standard-error bytes, permissively
/// decoded; standard output produced before the failure is discarded, for
/// the outcome is the same for every standard-output capture.
pub proof fn lemma_blocking_failure_is_stderr(stdout: Seq<u8>, stderr: Seq<u8>)
    ensures
        bridge_outcome(EventView::Completed { exit_success: false, stdout, stderr })
            == ResultView::Failure(lossy_decode(stderr)),
{
}

/// Law: when the external process cannot be started, the caller sees
/// `Failure` in either execution mode: a spawn failure fits both modes, its
/// outcome carries the operating system's description behind the fixed
/// prefix, and it is never a `Success`.
pub proof fn lemma_spawn_failure_fails_in_both_modes(mode: ExecMode, error: Seq<char>)
    ensures
        event_fits_mode(mode, EventView::SpawnFailed { error }),
        bridge_outcome(EventView::SpawnFailed { error })
            == ResultView::Failure(spawn_failure_message(error)),
        !(bridge_outcome(EventView::SpawnFailed { error }) is Success),
{
}

/// Law: a detached invocation that starts its process is acknowledged with
/// the fixed value — the outcome is settled before anything of the running
/// process could be observed, so it cannot depend on what the process goes
/// on to do.
pub proof fn lemma_detached_ack_is_fixed()
    ensures
        bridge_outcome(EventView::Spawned) == ResultView::Success(detached_ack()),
{
}

} // verus!
