//! The process supervisor's start sequence, as a state machine. The driver
//! performs one action at a time — create the data directory, probe, spawn,
//! poll health — and feeds the outcome back as an event; every decision
//! between those actions is made by `start_step`. Startup is bounded: the
//! port wait gives up and proceeds with a warning, and the health poll gives
//! up and fails with the captured stderr.

use vstd::prelude::*;

use crate::errors::StoreError;
use crate::locator::ServerTool;
use crate::text::{contains_sub, spec_contains, spec_digits_of, u16_to_string};

verus! {

/// How many times the port is re-checked after a reclamation before start
/// proceeds anyway.
pub const PORT_WAIT_MAX: u8 = 10;

/// How many times the health endpoint is polled before startup fails.
pub const HEALTH_POLL_MAX: u8 = 20;

/// Where one `start` call stands.
#[derive(Debug, Clone, PartialEq)]
pub enum StartPhase {
    /// Validate or create the data directory.
    EnsureDataDir,
    /// Find a usable runtime.
    LocateRuntime,
    /// Check the server package is installed under the runtime.
    CheckInstall { runtime: String },
    /// Find how to launch the server.
    LocateTool { runtime: String },
    /// First look at the target port.
    ProbePort { tool: ServerTool },
    /// The port was occupied and a reclamation was issued; waiting for it
    /// to come free, a bounded number of times.
    AwaitPortFree { tool: ServerTool, attempts: u8 },
    /// Spawn the server process.
    SpawnServer { tool: ServerTool },
    /// Poll the health endpoint, a bounded number of times.
    HealthPoll { attempts: u8 },
    /// Healthy; wait out the server's asynchronous first-run initialization.
    Settle,
    /// Startup timed out; collect the captured stderr for the error.
    CollectStderr,
    /// The server is up; the handle can be built.
    Running,
    /// Startup failed.
    Failed { error: StoreError },
}

/// What the driver observed after performing the last action.
#[derive(Debug, Clone, PartialEq)]
pub enum StartEvent {
    DirCreated,
    DirFailed { message: String },
    RuntimeFound { runtime: String },
    RuntimeMissing { error: StoreError },
    InstallOk,
    InstallFailed { error: StoreError },
    ToolFound { tool: ServerTool },
    ToolMissing { error: StoreError },
    PortStatus { listening: bool, responding: bool },
    Spawned,
    SpawnFailed { message: String },
    HealthOk,
    HealthDown,
    Settled,
    StderrCollected { excerpt: String },
}

/// What the driver must do next.
#[derive(Debug, Clone, PartialEq, Eq, Structural)]
pub enum StartAction {
    /// Create the data directory if it is missing.
    CreateDataDir,
    /// Probe the runtime candidates and select the first that answers.
    ProbeRuntime,
    /// Probe that the server package imports under the runtime.
    ProbeInstall,
    /// Probe the direct commands and module fallbacks and select one.
    ProbeTool,
    /// Check the port: a raw connect, and a protocol-level health probe.
    CheckPort,
    /// Terminate the managed processes found on the port, then re-check.
    ReclaimThenWait,
    /// Wait a fixed interval, then re-check the port.
    WaitThenCheckPort,
    /// Spawn the server process with the chosen tool.
    Spawn,
    /// Wait a fixed interval, then poll the health endpoint.
    WaitThenHealthCheck,
    /// Wait the fixed settle delay.
    SettleDelay,
    /// Kill the spawned process and drain its captured stderr.
    DrainStderr,
    /// Build the handle: the server is running.
    Finish,
    /// Report the error; the start call is over.
    Abort,
}

/// The phases in which a `start` call has ended.
pub open spec fn start_terminal(p: StartPhase) -> bool {
    p is Running || p is Failed
}

/// The attempt counters stay within their bounds.
pub open spec fn start_phase_wf(p: StartPhase) -> bool {
    match p {
        StartPhase::AwaitPortFree { attempts, .. } => attempts < PORT_WAIT_MAX,
        StartPhase::HealthPoll { attempts } => attempts < HEALTH_POLL_MAX,
        _ => true,
    }
}

/// The event belongs to the phase.
pub open spec fn start_event_fits(p: StartPhase, e: StartEvent) -> bool {
    match p {
        StartPhase::EnsureDataDir => e is DirCreated || e is DirFailed,
        StartPhase::LocateRuntime => e is RuntimeFound || e is RuntimeMissing,
        StartPhase::CheckInstall { .. } => e is InstallOk || e is InstallFailed,
        StartPhase::LocateTool { .. } => e is ToolFound || e is ToolMissing,
        StartPhase::ProbePort { .. } => e is PortStatus,
        StartPhase::AwaitPortFree { .. } => e is PortStatus,
        StartPhase::SpawnServer { .. } => e is Spawned || e is SpawnFailed,
        StartPhase::HealthPoll { .. } => e is HealthOk || e is HealthDown,
        StartPhase::Settle => e is Settled,
        StartPhase::CollectStderr => e is StderrCollected,
        StartPhase::Running => false,
        StartPhase::Failed { .. } => false,
    }
}

/// The transition relation of one `start` call.
pub open spec fn spec_start_step(p: StartPhase, e: StartEvent) -> (StartPhase, StartAction) {
    match (p, e) {
        (StartPhase::EnsureDataDir, StartEvent::DirCreated) => (
            StartPhase::LocateRuntime,
            StartAction::ProbeRuntime,
        ),
        (StartPhase::EnsureDataDir, StartEvent::DirFailed { message }) => (
            StartPhase::Failed { error: StoreError::OperationFailed(message) },
            StartAction::Abort,
        ),
        (StartPhase::LocateRuntime, StartEvent::RuntimeFound { runtime }) => (
            StartPhase::CheckInstall { runtime },
            StartAction::ProbeInstall,
        ),
        (StartPhase::LocateRuntime, StartEvent::RuntimeMissing { error }) => (
            StartPhase::Failed { error },
            StartAction::Abort,
        ),
        (StartPhase::CheckInstall { runtime }, StartEvent::InstallOk) => (
            StartPhase::LocateTool { runtime },
            StartAction::ProbeTool,
        ),
        (StartPhase::CheckInstall { .. }, StartEvent::InstallFailed { error }) => (
            StartPhase::Failed { error },
            StartAction::Abort,
        ),
        (StartPhase::LocateTool { .. }, StartEvent::ToolFound { tool }) => (
            StartPhase::ProbePort { tool },
            StartAction::CheckPort,
        ),
        (StartPhase::LocateTool { .. }, StartEvent::ToolMissing { error }) => (
            StartPhase::Failed { error },
            StartAction::Abort,
        ),
        (StartPhase::ProbePort { tool }, StartEvent::PortStatus { listening, responding }) => {
            if listening || responding {
                (
                    StartPhase::AwaitPortFree { tool, attempts: 0 },
                    StartAction::ReclaimThenWait,
                )
            } else {
                (StartPhase::SpawnServer { tool }, StartAction::Spawn)
            }
        },
        (
            StartPhase::AwaitPortFree { tool, attempts },
            StartEvent::PortStatus { listening, .. },
        ) => {
            if !listening {
                (StartPhase::SpawnServer { tool }, StartAction::Spawn)
            } else if attempts + 1 >= PORT_WAIT_MAX {
                // The port never came free; proceed anyway with a warning
                // rather than failing.
                (StartPhase::SpawnServer { tool }, StartAction::Spawn)
            } else {
                (
                    StartPhase::AwaitPortFree { tool, attempts: (attempts + 1) as u8 },
                    StartAction::WaitThenCheckPort,
                )
            }
        },
        (StartPhase::SpawnServer { .. }, StartEvent::Spawned) => (
            StartPhase::HealthPoll { attempts: 0 },
            StartAction::WaitThenHealthCheck,
        ),
        (StartPhase::SpawnServer { .. }, StartEvent::SpawnFailed { message }) => (
            StartPhase::Failed { error: StoreError::OperationFailed(message) },
            StartAction::Abort,
        ),
        (StartPhase::HealthPoll { .. }, StartEvent::HealthOk) => (
            StartPhase::Settle,
            StartAction::SettleDelay,
        ),
        (StartPhase::HealthPoll { attempts }, StartEvent::HealthDown) => {
            if attempts + 1 >= HEALTH_POLL_MAX {
                (StartPhase::CollectStderr, StartAction::DrainStderr)
            } else {
                (
                    StartPhase::HealthPoll { attempts: (attempts + 1) as u8 },
                    StartAction::WaitThenHealthCheck,
                )
            }
        },
        (StartPhase::Settle, StartEvent::Settled) => (StartPhase::Running, StartAction::Finish),
        (StartPhase::CollectStderr, StartEvent::StderrCollected { excerpt }) => (
            StartPhase::Failed { error: StoreError::StartTimeout(excerpt) },
            StartAction::Abort,
        ),
        _ => (p, StartAction::Abort),
    }
}

/// One decision of the start sequence: from where the call stands and what
/// the driver observed, to where it stands next and what to do.
pub fn start_step(p: StartPhase, e: StartEvent) -> (r: (StartPhase, StartAction))
    requires
        start_event_fits(p, e),
        start_phase_wf(p),
    ensures
        r == spec_start_step(p, e),
        start_phase_wf(r.0),
{
    match (p, e) {
        (StartPhase::EnsureDataDir, StartEvent::DirCreated) => (
            StartPhase::LocateRuntime,
            StartAction::ProbeRuntime,
        ),
        (StartPhase::EnsureDataDir, StartEvent::DirFailed { message }) => (
            StartPhase::Failed { error: StoreError::OperationFailed(message) },
            StartAction::Abort,
        ),
        (StartPhase::LocateRuntime, StartEvent::RuntimeFound { runtime }) => (
            StartPhase::CheckInstall { runtime },
            StartAction::ProbeInstall,
        ),
        (StartPhase::LocateRuntime, StartEvent::RuntimeMissing { error }) => (
            StartPhase::Failed { error },
            StartAction::Abort,
        ),
        (StartPhase::CheckInstall { runtime }, StartEvent::InstallOk) => (
            StartPhase::LocateTool { runtime },
            StartAction::ProbeTool,
        ),
        (StartPhase::CheckInstall { .. }, StartEvent::InstallFailed { error }) => (
            StartPhase::Failed { error },
            StartAction::Abort,
        ),
        (StartPhase::LocateTool { .. }, StartEvent::ToolFound { tool }) => (
            StartPhase::ProbePort { tool },
            StartAction::CheckPort,
        ),
        (StartPhase::LocateTool { .. }, StartEvent::ToolMissing { error }) => (
            StartPhase::Failed { error },
            StartAction::Abort,
        ),
        (StartPhase::ProbePort { tool }, StartEvent::PortStatus { listening, responding }) => {
            if listening || responding {
                (
                    StartPhase::AwaitPortFree { tool, attempts: 0 },
                    StartAction::ReclaimThenWait,
                )
            } else {
                (StartPhase::SpawnServer { tool }, StartAction::Spawn)
            }
        },
        (
            StartPhase::AwaitPortFree { tool, attempts },
            StartEvent::PortStatus { listening, .. },
        ) => {
            if !listening {
                (StartPhase::SpawnServer { tool }, StartAction::Spawn)
            } else if attempts + 1 >= PORT_WAIT_MAX {
                (StartPhase::SpawnServer { tool }, StartAction::Spawn)
            } else {
                (
                    StartPhase::AwaitPortFree { tool, attempts: attempts + 1 },
                    StartAction::WaitThenCheckPort,
                )
            }
        },
        (StartPhase::SpawnServer { .. }, StartEvent::Spawned) => (
            StartPhase::HealthPoll { attempts: 0 },
            StartAction::WaitThenHealthCheck,
        ),
        (StartPhase::SpawnServer { .. }, StartEvent::SpawnFailed { message }) => (
            StartPhase::Failed { error: StoreError::OperationFailed(message) },
            StartAction::Abort,
        ),
        (StartPhase::HealthPoll { .. }, StartEvent::HealthOk) => (
            StartPhase::Settle,
            StartAction::SettleDelay,
        ),
        (StartPhase::HealthPoll { attempts }, StartEvent::HealthDown) => {
            if attempts + 1 >= HEALTH_POLL_MAX {
                (StartPhase::CollectStderr, StartAction::DrainStderr)
            } else {
                (
                    StartPhase::HealthPoll { attempts: attempts + 1 },
                    StartAction::WaitThenHealthCheck,
                )
            }
        },
        (StartPhase::Settle, StartEvent::Settled) => (StartPhase::Running, StartAction::Finish),
        (StartPhase::CollectStderr, StartEvent::StderrCollected { excerpt }) => (
            StartPhase::Failed { error: StoreError::StartTimeout(excerpt) },
            StartAction::Abort,
        ),
        (other_phase, _) => (other_phase, StartAction::Abort),
    }
}

/// How far the call still has to go; every step strictly shrinks it, so a
/// start call performs a bounded number of actions.
pub open spec fn start_measure(p: StartPhase) -> int {
    match p {
        StartPhase::EnsureDataDir => 100,
        StartPhase::LocateRuntime => 99,
        StartPhase::CheckInstall { .. } => 98,
        StartPhase::LocateTool { .. } => 97,
        StartPhase::ProbePort { .. } => 96,
        StartPhase::AwaitPortFree { attempts, .. } => 95 - attempts as int,
        StartPhase::SpawnServer { .. } => 84,
        StartPhase::HealthPoll { attempts } => 83 - attempts as int,
        StartPhase::Settle => 62,
        StartPhase::CollectStderr => 61,
        StartPhase::Running => 0,
        StartPhase::Failed { .. } => 0,
    }
}

/// Startup terminates: every step from a non-terminal phase strictly
/// shrinks the measure, which is non-negative, so no run of the start
/// machine exceeds a fixed number of steps.
pub proof fn lemma_start_step_decreases(p: StartPhase, e: StartEvent)
    requires
        start_event_fits(p, e),
        start_phase_wf(p),
    ensures
        0 <= start_measure(spec_start_step(p, e).0) < start_measure(p),
{
}

/// An occupied port never fails a start: whatever the port checks report,
/// the wait either continues, bounded, or the call proceeds to spawning —
/// it never moves to `Failed`.
pub proof fn lemma_occupied_port_never_fails(p: StartPhase, e: StartEvent)
    requires
        p is ProbePort || p is AwaitPortFree,
        start_event_fits(p, e),
        start_phase_wf(p),
    ensures
        !(spec_start_step(p, e).0 is Failed),
        spec_start_step(p, e).0 is AwaitPortFree || spec_start_step(p, e).0 is SpawnServer,
{
}

/// The health poll is bounded: when the last allowed poll still finds the
/// server down, the next phase collects stderr, and the stderr excerpt then
/// surfaces in the `StartTimeout` error.
pub proof fn lemma_health_poll_times_out(attempts: u8, excerpt: String)
    requires
        attempts + 1 >= HEALTH_POLL_MAX,
        attempts < HEALTH_POLL_MAX,
    ensures
        spec_start_step(StartPhase::HealthPoll { attempts }, StartEvent::HealthDown) == (
            StartPhase::CollectStderr,
            StartAction::DrainStderr,
        ),
        spec_start_step(
            StartPhase::CollectStderr,
            StartEvent::StderrCollected { excerpt },
        ).0 == (StartPhase::Failed { error: StoreError::StartTimeout(excerpt) }),
{
}

/// The managed server's command line: the launch program and its arguments,
/// selecting the host, the port and the data-directory path.
pub open spec fn spec_spawn_args(
    tool: ServerTool,
    port: u16,
    data_dir: Seq<char>,
) -> Seq<Seq<char>> {
    let base = seq![
        "run"@,
        "--host"@,
        "localhost"@,
        "--port"@,
        spec_digits_of(port as nat),
        "--path"@,
        data_dir,
    ];
    match tool {
        ServerTool::Direct { .. } => base,
        ServerTool::Module { module, .. } => seq!["-m"@, module@] + base,
    }
}

/// The program a tool launches.
pub open spec fn spec_spawn_program(tool: ServerTool) -> Seq<char> {
    match tool {
        ServerTool::Direct { command } => command@,
        ServerTool::Module { runtime, .. } => runtime@,
    }
}

/// Builds the command line that spawns the server with `tool`.
pub fn spawn_command(tool: &ServerTool, port: u16, data_dir: &str) -> (r: (String, Vec<String>))
    ensures
        r.0@ == spec_spawn_program(*tool),
        r.1@.map_values(|s: String| s@) == spec_spawn_args(*tool, port, data_dir@),
{
    let mut args: Vec<String> = Vec::new();
    let program: String = match tool {
        ServerTool::Direct { command } => command.clone(),
        ServerTool::Module { runtime, module } => {
            args.push("-m".to_owned());
            args.push(module.clone());
            runtime.clone()
        },
    };
    args.push("run".to_owned());
    args.push("--host".to_owned());
    args.push("localhost".to_owned());
    args.push("--port".to_owned());
    args.push(u16_to_string(port));
    args.push("--path".to_owned());
    args.push(data_dir.to_owned());
    proof {
        assert(args@.map_values(|s: String| s@) =~= spec_spawn_args(*tool, port, data_dir@));
    }
    (program, args)
}

/// A process on the port matches the managed server: its command name
/// mentions the server or its runtime, or its arguments mention the server.
/// The match is textual and best-effort — a cautious filter, not an exact
/// identification.
pub open spec fn spec_matches_managed(comm: Seq<char>, args: Seq<char>) -> bool {
    spec_contains(comm, "chroma"@) || spec_contains(comm, "python"@) || spec_contains(
        args,
        "chroma"@,
    )
}

/// Whether port reclamation may terminate the process `pid`, given its
/// command name and argument line: never the caller's own process, and
/// never a process that does not look like the managed server.
pub fn should_terminate_pid(pid: u32, self_pid: u32, comm: &str, args: &str) -> (r: bool)
    ensures
        r == (pid != self_pid && spec_matches_managed(comm@, args@)),
{
    pid != self_pid && (contains_sub(comm, "chroma") || contains_sub(comm, "python")
        || contains_sub(args, "chroma"))
}

/// The follow-up to a graceful terminate during reclamation.
#[derive(Debug, Clone, Copy, PartialEq, Eq, Structural)]
pub enum ReclaimFollowup {
    /// The process survived the graceful signal and the wait: kill it
    /// forcefully.
    ForceKill,
    /// The process is gone: nothing more to do.
    AlreadyGone,
}

/// After the graceful terminate and the fixed wait, escalation is decided
/// by one check: a process still alive is killed forcefully, one already
/// gone is left alone.
pub fn reclaim_followup(still_alive: bool) -> (r: ReclaimFollowup)
    ensures
        r == (if still_alive {
            ReclaimFollowup::ForceKill
        } else {
            ReclaimFollowup::AlreadyGone
        }),
{
    if still_alive {
        ReclaimFollowup::ForceKill
    } else {
        ReclaimFollowup::AlreadyGone
    }
}

/// A foreign process squatting on the port is spared: reclamation never
/// terminates a process whose name and arguments show none of the managed
/// server's markers, and never the caller's own process.
pub proof fn lemma_foreign_process_spared(
    pid: u32,
    self_pid: u32,
    comm: Seq<char>,
    args: Seq<char>,
)
    requires
        !spec_contains(comm, "chroma"@) && !spec_contains(comm, "python"@) && !spec_contains(
            args,
            "chroma"@,
        ) || pid == self_pid,
    ensures
        !(pid != self_pid && spec_matches_managed(comm, args)),
{
}

} // verus!
