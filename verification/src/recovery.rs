//! The self-healing controller. When a collection operation fails with the
//! server's corruption signature, one call runs exactly one automatic
//! recovery cycle — stop, wipe the data directory, wait out the port,
//! restart, reinitialize the client — and then retries the original
//! operation a bounded number of times. A second corruption after recovery
//! is retried, never re-wiped; when recovery itself fails or the retries
//! run out, the terminal error combines the corruption text with what
//! failed and names the data directory to clear by hand.

use vstd::prelude::*;

use crate::errors::StoreError;
use crate::text::{contains_sub, spec_contains};

verus! {

/// How many times the port is re-checked during recovery before a final
/// forced reclamation.
pub const RECOVERY_PORT_WAIT_MAX: u8 = 20;

/// How many consecutive unresponsive checks escalate to a forced
/// reclamation.
pub const UNRESPONSIVE_MAX: u8 = 3;

/// How many times the original operation is retried after recovery.
pub const OP_RETRY_MAX: u8 = 3;

/// The server's corruption signature: the error text of an operation that
/// hit the unusable internal index.
pub open spec fn spec_corruption_signature(msg: Seq<char>) -> bool {
    spec_contains(msg, "acquire_write"@) || spec_contains(msg, "no such table"@)
}

/// Recognizes the corruption signature in an operation's error text.
pub fn is_corruption_signature(msg: &str) -> (r: bool)
    ensures
        r == spec_corruption_signature(msg@),
{
    contains_sub(msg, "acquire_write") || contains_sub(msg, "no such table")
}

/// Classifies a failed operation's error text: the corruption signature is
/// the recoverable case, anything else fails the call as it is.
pub fn classify_operation_error(msg: String) -> (r: StoreError)
    ensures
        spec_corruption_signature(msg@) ==> r == StoreError::CorruptionDetected(msg),
        !spec_corruption_signature(msg@) ==> r == StoreError::OperationFailed(msg),
{
    if is_corruption_signature(msg.as_str()) {
        StoreError::CorruptionDetected(msg)
    } else {
        StoreError::OperationFailed(msg)
    }
}

/// Where one self-healing call stands. From `StopServer` on, the phase
/// carries the corruption text that triggered recovery, so a terminal
/// failure can report it.
#[derive(Debug, Clone, PartialEq)]
pub enum RecoveryPhase {
    /// First attempt of the operation.
    TryOp,
    /// Corruption was detected; the server is being stopped and the client
    /// registry cleared.
    StopServer { cause: String },
    /// Waiting for the stopped process to wind down.
    SettleAfterStop { cause: String },
    /// Deleting the data directory tree — the repair action.
    WipeData { cause: String },
    /// Waiting for the port to come free, with an escalation counter for
    /// checks that found it open but unresponsive.
    PortWait { cause: String, attempts: u8, unresponsive: u8 },
    /// The port never came free; one final forced reclamation before
    /// proceeding regardless.
    FinalReclaim { cause: String },
    /// Restarting the server.
    Restart { cause: String },
    /// Reinitializing the client.
    Reinit { cause: String },
    /// Retrying the original operation after recovery.
    RetryOp { cause: String, attempts: u8 },
    /// The operation succeeded.
    Done,
    /// The call failed.
    Failed { error: StoreError },
}

/// What the driver observed after performing the last action.
#[derive(Debug, Clone, PartialEq)]
pub enum RecoveryEvent {
    OpOk,
    OpFailed { message: String },
    Stopped,
    Settled,
    Wiped,
    PortStatus { listening: bool, responding: bool },
    Reclaimed,
    RestartOk,
    RestartFailed { message: String },
    ReinitOk,
    ReinitFailed { message: String },
}

/// What the driver must do next.
#[derive(Debug, Clone, PartialEq, Eq, Structural)]
pub enum RecoveryAction {
    /// Attempt the operation.
    AttemptOp,
    /// Stop the server handle and clear the client registry; failures here
    /// are tolerated.
    StopAndClear,
    /// Wait the fixed settle delay.
    Sleep,
    /// Delete the data directory tree; a failure is tolerated.
    WipeDataDir,
    /// Check the port: a raw connect, and a protocol-level health probe.
    CheckPort,
    /// Wait a fixed interval, then re-check the port.
    WaitThenCheckPort,
    /// Terminate the managed processes on the port, wait, then re-check.
    ReclaimThenCheckPort,
    /// Final forced reclamation; proceed whatever it reports.
    ReclaimPort,
    /// Start the server again.
    StartServer,
    /// Initialize the client again.
    InitClient,
    /// Wait a fixed interval, then attempt the operation again.
    WaitThenRetryOp,
    /// The operation's result stands.
    Finish,
    /// Report the error.
    Abort,
}

/// The phases in which a self-healing call has ended.
pub open spec fn recovery_terminal(p: RecoveryPhase) -> bool {
    p is Done || p is Failed
}

/// The attempt counters stay within their bounds.
pub open spec fn recovery_phase_wf(p: RecoveryPhase) -> bool {
    match p {
        RecoveryPhase::PortWait { attempts, unresponsive, .. } => attempts
            < RECOVERY_PORT_WAIT_MAX && unresponsive < UNRESPONSIVE_MAX,
        RecoveryPhase::RetryOp { attempts, .. } => attempts < OP_RETRY_MAX,
        _ => true,
    }
}

/// The event belongs to the phase.
pub open spec fn recovery_event_fits(p: RecoveryPhase, e: RecoveryEvent) -> bool {
    match p {
        RecoveryPhase::TryOp => e is OpOk || e is OpFailed,
        RecoveryPhase::StopServer { .. } => e is Stopped,
        RecoveryPhase::SettleAfterStop { .. } => e is Settled,
        RecoveryPhase::WipeData { .. } => e is Wiped,
        RecoveryPhase::PortWait { .. } => e is PortStatus,
        RecoveryPhase::FinalReclaim { .. } => e is Reclaimed,
        RecoveryPhase::Restart { .. } => e is RestartOk || e is RestartFailed,
        RecoveryPhase::Reinit { .. } => e is ReinitOk || e is ReinitFailed,
        RecoveryPhase::RetryOp { .. } => e is OpOk || e is OpFailed,
        RecoveryPhase::Done => false,
        RecoveryPhase::Failed { .. } => false,
    }
}

/// The transition relation of one self-healing call. `data_dir` is the
/// directory recovery wipes; terminal failures name it for manual cleanup.
pub open spec fn spec_recovery_step(p: RecoveryPhase, e: RecoveryEvent, data_dir: String) -> (
    RecoveryPhase,
    RecoveryAction,
) {
    match (p, e) {
        (RecoveryPhase::TryOp, RecoveryEvent::OpOk) => (
            RecoveryPhase::Done,
            RecoveryAction::Finish,
        ),
        (RecoveryPhase::TryOp, RecoveryEvent::OpFailed { message }) => {
            if spec_corruption_signature(message@) {
                (RecoveryPhase::StopServer { cause: message }, RecoveryAction::StopAndClear)
            } else {
                (
                    RecoveryPhase::Failed { error: StoreError::OperationFailed(message) },
                    RecoveryAction::Abort,
                )
            }
        },
        (RecoveryPhase::StopServer { cause }, RecoveryEvent::Stopped) => (
            RecoveryPhase::SettleAfterStop { cause },
            RecoveryAction::Sleep,
        ),
        (RecoveryPhase::SettleAfterStop { cause }, RecoveryEvent::Settled) => (
            RecoveryPhase::WipeData { cause },
            RecoveryAction::WipeDataDir,
        ),
        (RecoveryPhase::WipeData { cause }, RecoveryEvent::Wiped) => (
            RecoveryPhase::PortWait { cause, attempts: 0, unresponsive: 0 },
            RecoveryAction::CheckPort,
        ),
        (
            RecoveryPhase::PortWait { cause, attempts, unresponsive },
            RecoveryEvent::PortStatus { listening, responding },
        ) => {
            if !listening {
                (RecoveryPhase::Restart { cause }, RecoveryAction::StartServer)
            } else if attempts + 1 >= RECOVERY_PORT_WAIT_MAX {
                (RecoveryPhase::FinalReclaim { cause }, RecoveryAction::ReclaimPort)
            } else if !responding && unresponsive + 1 >= UNRESPONSIVE_MAX {
                (
                    RecoveryPhase::PortWait {
                        cause,
                        attempts: (attempts + 1) as u8,
                        unresponsive: 0,
                    },
                    RecoveryAction::ReclaimThenCheckPort,
                )
            } else if !responding {
                (
                    RecoveryPhase::PortWait {
                        cause,
                        attempts: (attempts + 1) as u8,
                        unresponsive: (unresponsive + 1) as u8,
                    },
                    RecoveryAction::WaitThenCheckPort,
                )
            } else {
                (
                    RecoveryPhase::PortWait {
                        cause,
                        attempts: (attempts + 1) as u8,
                        unresponsive: 0,
                    },
                    RecoveryAction::WaitThenCheckPort,
                )
            }
        },
        (RecoveryPhase::FinalReclaim { cause }, RecoveryEvent::Reclaimed) => (
            RecoveryPhase::Restart { cause },
            RecoveryAction::StartServer,
        ),
        (RecoveryPhase::Restart { cause }, RecoveryEvent::RestartOk) => (
            RecoveryPhase::Reinit { cause },
            RecoveryAction::InitClient,
        ),
        (RecoveryPhase::Restart { cause }, RecoveryEvent::RestartFailed { message }) => (
            RecoveryPhase::Failed {
                error: StoreError::RecoveryFailed { cause, detail: message, data_dir },
            },
            RecoveryAction::Abort,
        ),
        (RecoveryPhase::Reinit { cause }, RecoveryEvent::ReinitOk) => (
            RecoveryPhase::RetryOp { cause, attempts: 0 },
            RecoveryAction::AttemptOp,
        ),
        (RecoveryPhase::Reinit { cause }, RecoveryEvent::ReinitFailed { message }) => (
            RecoveryPhase::Failed {
                error: StoreError::RecoveryFailed { cause, detail: message, data_dir },
            },
            RecoveryAction::Abort,
        ),
        (RecoveryPhase::RetryOp { .. }, RecoveryEvent::OpOk) => (
            RecoveryPhase::Done,
            RecoveryAction::Finish,
        ),
        (RecoveryPhase::RetryOp { cause, attempts }, RecoveryEvent::OpFailed { message }) => {
            if attempts + 1 >= OP_RETRY_MAX {
                (
                    RecoveryPhase::Failed {
                        error: StoreError::RecoveryFailed { cause, detail: message, data_dir },
                    },
                    RecoveryAction::Abort,
                )
            } else {
                (
                    RecoveryPhase::RetryOp { cause, attempts: (attempts + 1) as u8 },
                    RecoveryAction::WaitThenRetryOp,
                )
            }
        },
        _ => (p, RecoveryAction::Abort),
    }
}

/// One decision of the self-healing controller: from where the call stands
/// and what the driver observed, to where it stands next and what to do.
pub fn recovery_step(p: RecoveryPhase, e: RecoveryEvent, data_dir: String) -> (r: (
    RecoveryPhase,
    RecoveryAction,
))
    requires
        recovery_event_fits(p, e),
        recovery_phase_wf(p),
    ensures
        r == spec_recovery_step(p, e, data_dir),
        recovery_phase_wf(r.0),
{
    match (p, e) {
        (RecoveryPhase::TryOp, RecoveryEvent::OpOk) => (
            RecoveryPhase::Done,
            RecoveryAction::Finish,
        ),
        (RecoveryPhase::TryOp, RecoveryEvent::OpFailed { message }) => {
            if is_corruption_signature(message.as_str()) {
                (RecoveryPhase::StopServer { cause: message }, RecoveryAction::StopAndClear)
            } else {
                (
                    RecoveryPhase::Failed { error: StoreError::OperationFailed(message) },
                    RecoveryAction::Abort,
                )
            }
        },
        (RecoveryPhase::StopServer { cause }, RecoveryEvent::Stopped) => (
            RecoveryPhase::SettleAfterStop { cause },
            RecoveryAction::Sleep,
        ),
        (RecoveryPhase::SettleAfterStop { cause }, RecoveryEvent::Settled) => (
            RecoveryPhase::WipeData { cause },
            RecoveryAction::WipeDataDir,
        ),
        (RecoveryPhase::WipeData { cause }, RecoveryEvent::Wiped) => (
            RecoveryPhase::PortWait { cause, attempts: 0, unresponsive: 0 },
            RecoveryAction::CheckPort,
        ),
        (
            RecoveryPhase::PortWait { cause, attempts, unresponsive },
            RecoveryEvent::PortStatus { listening, responding },
        ) => {
            if !listening {
                (RecoveryPhase::Restart { cause }, RecoveryAction::StartServer)
            } else if attempts + 1 >= RECOVERY_PORT_WAIT_MAX {
                (RecoveryPhase::FinalReclaim { cause }, RecoveryAction::ReclaimPort)
            } else if !responding && unresponsive + 1 >= UNRESPONSIVE_MAX {
                (
                    RecoveryPhase::PortWait { cause, attempts: attempts + 1, unresponsive: 0 },
                    RecoveryAction::ReclaimThenCheckPort,
                )
            } else if !responding {
                (
                    RecoveryPhase::PortWait {
                        cause,
                        attempts: attempts + 1,
                        unresponsive: unresponsive + 1,
                    },
                    RecoveryAction::WaitThenCheckPort,
                )
            } else {
                (
                    RecoveryPhase::PortWait { cause, attempts: attempts + 1, unresponsive: 0 },
                    RecoveryAction::WaitThenCheckPort,
                )
            }
        },
        (RecoveryPhase::FinalReclaim { cause }, RecoveryEvent::Reclaimed) => (
            RecoveryPhase::Restart { cause },
            RecoveryAction::StartServer,
        ),
        (RecoveryPhase::Restart { cause }, RecoveryEvent::RestartOk) => (
            RecoveryPhase::Reinit { cause },
            RecoveryAction::InitClient,
        ),
        (RecoveryPhase::Restart { cause }, RecoveryEvent::RestartFailed { message }) => (
            RecoveryPhase::Failed {
                error: StoreError::RecoveryFailed { cause, detail: message, data_dir },
            },
            RecoveryAction::Abort,
        ),
        (RecoveryPhase::Reinit { cause }, RecoveryEvent::ReinitOk) => (
            RecoveryPhase::RetryOp { cause, attempts: 0 },
            RecoveryAction::AttemptOp,
        ),
        (RecoveryPhase::Reinit { cause }, RecoveryEvent::ReinitFailed { message }) => (
            RecoveryPhase::Failed {
                error: StoreError::RecoveryFailed { cause, detail: message, data_dir },
            },
            RecoveryAction::Abort,
        ),
        (RecoveryPhase::RetryOp { .. }, RecoveryEvent::OpOk) => (
            RecoveryPhase::Done,
            RecoveryAction::Finish,
        ),
        (RecoveryPhase::RetryOp { cause, attempts }, RecoveryEvent::OpFailed { message }) => {
            if attempts + 1 >= OP_RETRY_MAX {
                (
                    RecoveryPhase::Failed {
                        error: StoreError::RecoveryFailed { cause, detail: message, data_dir },
                    },
                    RecoveryAction::Abort,
                )
            } else {
                (
                    RecoveryPhase::RetryOp { cause, attempts: attempts + 1 },
                    RecoveryAction::WaitThenRetryOp,
                )
            }
        },
        (other_phase, _) => (other_phase, RecoveryAction::Abort),
    }
}

/// How far the call still has to go; every step strictly shrinks it, so a
/// self-healing call performs a bounded number of actions.
pub open spec fn recovery_measure(p: RecoveryPhase) -> int {
    match p {
        RecoveryPhase::TryOp => 100,
        RecoveryPhase::StopServer { .. } => 99,
        RecoveryPhase::SettleAfterStop { .. } => 98,
        RecoveryPhase::WipeData { .. } => 97,
        RecoveryPhase::PortWait { attempts, unresponsive, .. } => 30 + 3 * (20 - attempts as int)
            + (3 - unresponsive as int),
        RecoveryPhase::FinalReclaim { .. } => 20,
        RecoveryPhase::Restart { .. } => 15,
        RecoveryPhase::Reinit { .. } => 14,
        RecoveryPhase::RetryOp { attempts, .. } => 10 - 3 * attempts as int,
        RecoveryPhase::Done => 0,
        RecoveryPhase::Failed { .. } => 0,
    }
}

/// Self-healing terminates: every step from a non-terminal phase strictly
/// shrinks the measure, which is non-negative, so no run of the recovery
/// machine exceeds a fixed number of steps.
pub proof fn lemma_recovery_step_decreases(p: RecoveryPhase, e: RecoveryEvent, data_dir: String)
    requires
        recovery_event_fits(p, e),
        recovery_phase_wf(p),
    ensures
        0 <= recovery_measure(spec_recovery_step(p, e, data_dir).0) < recovery_measure(p),
{
}

/// A corruption signature on the first attempt triggers the recovery cycle,
/// carrying its text as the cause; any other failure surfaces as it is,
/// with no recovery.
pub proof fn lemma_corruption_triggers_recovery(message: String, data_dir: String)
    ensures
        spec_corruption_signature(message@) ==> spec_recovery_step(
            RecoveryPhase::TryOp,
            RecoveryEvent::OpFailed { message },
            data_dir,
        ) == (RecoveryPhase::StopServer { cause: message }, RecoveryAction::StopAndClear),
        !spec_corruption_signature(message@) ==> spec_recovery_step(
            RecoveryPhase::TryOp,
            RecoveryEvent::OpFailed { message },
            data_dir,
        ) == (
            RecoveryPhase::Failed { error: StoreError::OperationFailed(message) },
            RecoveryAction::Abort,
        ),
{
}

/// The data directory is wiped exactly once per call: the wipe action is
/// issued only by the step out of `SettleAfterStop`, and since every step
/// strictly shrinks the measure, no run passes that phase twice.
pub proof fn lemma_wipe_issued_once(p: RecoveryPhase, e: RecoveryEvent, data_dir: String)
    requires
        recovery_event_fits(p, e),
        recovery_phase_wf(p),
    ensures
        spec_recovery_step(p, e, data_dir).1 == RecoveryAction::WipeDataDir ==> p
            is SettleAfterStop,
        spec_recovery_step(p, e, data_dir).1 == RecoveryAction::StopAndClear ==> p
            == RecoveryPhase::TryOp,
{
}

/// A failed restart or reinit during recovery is terminal, with no retry of
/// the operation, and the error combines the corruption cause with what
/// failed and names the data directory to clear by hand.
pub proof fn lemma_recovery_failure_is_terminal(cause: String, message: String, data_dir: String)
    ensures
        spec_recovery_step(
            RecoveryPhase::Restart { cause: cause },
            RecoveryEvent::RestartFailed { message: message },
            data_dir,
        ) == (
            RecoveryPhase::Failed {
                error: StoreError::RecoveryFailed { cause, detail: message, data_dir },
            },
            RecoveryAction::Abort,
        ),
        spec_recovery_step(
            RecoveryPhase::Reinit { cause: cause },
            RecoveryEvent::ReinitFailed { message: message },
            data_dir,
        ) == (
            RecoveryPhase::Failed {
                error: StoreError::RecoveryFailed { cause, detail: message, data_dir },
            },
            RecoveryAction::Abort,
        ),
{
}

/// A second corruption, after recovery, is retried and never re-wipes: from
/// the retry phase a failure either schedules another bounded retry or, once
/// the retries are exhausted, surfaces as the terminal recovery error — it
/// never re-enters the stop/wipe sequence.
pub proof fn lemma_second_corruption_only_retries(
    cause: String,
    attempts: u8,
    message: String,
    data_dir: String,
)
    requires
        attempts < OP_RETRY_MAX,
    ensures
        attempts + 1 < OP_RETRY_MAX ==> spec_recovery_step(
            RecoveryPhase::RetryOp { cause: cause, attempts },
            RecoveryEvent::OpFailed { message },
            data_dir,
        ) == (
            RecoveryPhase::RetryOp { cause, attempts: (attempts + 1) as u8 },
            RecoveryAction::WaitThenRetryOp,
        ),
        attempts + 1 >= OP_RETRY_MAX ==> spec_recovery_step(
            RecoveryPhase::RetryOp { cause: cause, attempts },
            RecoveryEvent::OpFailed { message },
            data_dir,
        ) == (
            RecoveryPhase::Failed {
                error: StoreError::RecoveryFailed { cause, detail: message, data_dir },
            },
            RecoveryAction::Abort,
        ),
{
}

/// Whether a collection-delete error may be ignored: a collection that is
/// already gone is not an error when tearing a tenant's collections down.
pub fn is_missing_collection_error(msg: &str) -> (r: bool)
    ensures
        r == (spec_contains(msg@, "not found"@) || spec_contains(msg@, "does not exist"@)),
{
    contains_sub(msg, "not found") || contains_sub(msg, "does not exist")
}

} // verus!
