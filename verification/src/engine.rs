//! The engine that drives a process execution: it selects the isolation
//! strategy for the host platform and sandbox flag, builds the command
//! through it, and decides the process lifecycle.
//!
//! The lifecycle is a state machine `Created -> Running -> {Completed,
//! Cancelled, Failed}`; terminal states are mutually exclusive and, since
//! no event is accepted in a terminal state, reached exactly once per
//! invocation. The unverified runner performs the actions the machine
//! prescribes (spawning, bridging the output streams, killing the child)
//! and feeds the observed events back in.

use vstd::prelude::*;

use crate::base::{ContextModel, ExecutionContext, IsolationStrategy};
use crate::command::{BuiltCommand, StdioMode};
use crate::errors::LaunchError;
use crate::host::HostStrategy;
use crate::linux::LinuxBwrapStrategy;
use crate::macos::MacOsSandboxStrategy;
use crate::probe::{HostProbe, Platform, ProbeModel};
use crate::windows::WindowsJobStrategy;

verus! {

/// The isolation strategy an engine drives.
#[derive(PartialEq, Eq, Structural, Debug)]
pub enum StrategyChoice {
    Host(HostStrategy),
    LinuxNamespace(LinuxBwrapStrategy),
    MacSeatbelt(MacOsSandboxStrategy),
    WindowsJob(WindowsJobStrategy),
}

/// The strategy for a host platform and sandbox flag: the platform's
/// dedicated strategy when sandboxing is asked for, the host strategy for
/// unsandboxed execution and for any platform without a dedicated one.
/// This factory is the single place new platforms are added.
pub open spec fn chosen_strategy(platform: Platform, sandbox: bool) -> StrategyChoice {
    if sandbox {
        match platform {
            Platform::Linux => StrategyChoice::LinuxNamespace(LinuxBwrapStrategy),
            Platform::MacOs => StrategyChoice::MacSeatbelt(MacOsSandboxStrategy),
            Platform::Windows => StrategyChoice::WindowsJob(WindowsJobStrategy),
            Platform::Other => StrategyChoice::Host(HostStrategy),
        }
    } else {
        StrategyChoice::Host(HostStrategy)
    }
}

/// The core engine: holds the selected isolation strategy and decides the
/// lifecycle of one process execution.
pub struct Engine {
    /// The strategy selected at construction time.
    pub strategy: StrategyChoice,
}

impl Engine {
    /// Creates an engine with the appropriate isolation strategy for the
    /// given platform and sandbox flag.
    pub fn new(platform: Platform, sandbox: bool) -> (e: Engine)
        ensures
            e.strategy == chosen_strategy(platform, sandbox),
    {
        let strategy = if sandbox {
            match platform {
                Platform::Linux => StrategyChoice::LinuxNamespace(LinuxBwrapStrategy),
                Platform::MacOs => StrategyChoice::MacSeatbelt(MacOsSandboxStrategy),
                Platform::Windows => StrategyChoice::WindowsJob(WindowsJobStrategy),
                Platform::Other => StrategyChoice::Host(HostStrategy),
            }
        } else {
            StrategyChoice::Host(HostStrategy)
        };
        Engine { strategy }
    }

    /// What the engine's `build_command` returns: exactly what the selected
    /// strategy builds.
    pub open spec fn builds(
        &self,
        ctx: ContextModel,
        probe: ProbeModel,
        r: Result<BuiltCommand, LaunchError>,
    ) -> bool {
        match self.strategy {
            StrategyChoice::Host(s) => s.builds(ctx, probe, r),
            StrategyChoice::LinuxNamespace(s) => s.builds(ctx, probe, r),
            StrategyChoice::MacSeatbelt(s) => s.builds(ctx, probe, r),
            StrategyChoice::WindowsJob(s) => s.builds(ctx, probe, r),
        }
    }

    /// Builds the command for the context through the selected strategy,
    /// propagating its `ToolMissing` failure. Never spawns anything.
    pub fn build_command(&self, ctx: &ExecutionContext, probe: &HostProbe) -> (r: Result<
        BuiltCommand,
        LaunchError,
    >)
        requires
            ctx@.wf(),
        ensures
            self.builds(ctx@, probe@, r),
            r matches Ok(c) ==> c@.stdin == StdioMode::Null && c@.stdout == StdioMode::Piped
                && c@.stderr == StdioMode::Piped && c@.cwd.len() > 0,
            r matches Err(e) ==> e is ToolMissing,
    {
        match &self.strategy {
            StrategyChoice::Host(s) => s.build_command(ctx, probe),
            StrategyChoice::LinuxNamespace(s) => s.build_command(ctx, probe),
            StrategyChoice::MacSeatbelt(s) => s.build_command(ctx, probe),
            StrategyChoice::WindowsJob(s) => s.build_command(ctx, probe),
        }
    }

    /// The display name of the selected strategy, for diagnostics.
    pub fn name(&self) -> (r: &'static str) {
        match &self.strategy {
            StrategyChoice::Host(s) => s.name(),
            StrategyChoice::LinuxNamespace(s) => s.name(),
            StrategyChoice::MacSeatbelt(s) => s.name(),
            StrategyChoice::WindowsJob(s) => s.name(),
        }
    }
}

/// One phase of a process execution's lifecycle.
#[derive(Debug, PartialEq)]
pub enum RunPhase {
    /// The command is built but not yet spawned.
    Created,
    /// The child process runs; its output streams are being bridged.
    Running,
    /// The child exited and this exit code was derived for it.
    Completed(i32),
    /// An external termination request arrived and the child was killed.
    Cancelled,
    /// Spawning or awaiting the child failed.
    Failed(LaunchError),
}

/// One event the runner observes.
#[derive(Debug, PartialEq)]
pub enum RunEvent {
    /// The operating system created the child process.
    SpawnSucceeded,
    /// The operating system refused to create the process.
    SpawnRejected(String),
    /// The child terminated, with its exit code when one exists (a child
    /// that died from an unhandled condition has none).
    ChildExited(Option<i32>),
    /// The operating system failed while awaiting the child.
    WaitRejected(String),
    /// An external interrupt or terminate request arrived.
    TerminationRequested,
}

/// What the runner must do after a step.
#[derive(Debug, PartialEq, Clone, Copy)]
pub enum RunAction {
    /// Start the two stream-copy tasks and await the child.
    StartBridging,
    /// Wait for both stream-copy tasks to finish draining, then report the
    /// completed exit code. Cancellation skips this, trading final buffered
    /// output for lower latency.
    DrainOutputs,
    /// Kill the child, so no process outlives the launcher.
    KillChild,
    /// Report the failure; there is no child to clean up.
    ReportFailure,
}

/// The phase is terminal: the execution is decided.
pub open spec fn is_terminal(phase: RunPhase) -> bool {
    match phase {
        RunPhase::Created => false,
        RunPhase::Running => false,
        RunPhase::Completed(_) => true,
        RunPhase::Cancelled => true,
        RunPhase::Failed(_) => true,
    }
}

/// The events each phase accepts: spawn outcomes while `Created`, child
/// outcomes and termination requests while `Running`, nothing once
/// terminal.
pub open spec fn phase_accepts(phase: RunPhase, event: RunEvent) -> bool {
    match (phase, event) {
        (RunPhase::Created, RunEvent::SpawnSucceeded) => true,
        (RunPhase::Created, RunEvent::SpawnRejected(_)) => true,
        (RunPhase::Running, RunEvent::ChildExited(_)) => true,
        (RunPhase::Running, RunEvent::WaitRejected(_)) => true,
        (RunPhase::Running, RunEvent::TerminationRequested) => true,
        _ => false,
    }
}

/// The exit code derived from a child's exit status: its own code when it
/// exited normally, the sentinel `-1` when no code is available.
pub open spec fn exit_code_spec(status: Option<i32>) -> i32 {
    match status {
        Some(c) => c,
        None => -1i32,
    }
}

/// The transition relation of the lifecycle.
pub open spec fn step_spec(phase: RunPhase, event: RunEvent) -> (RunPhase, RunAction) {
    match (phase, event) {
        (RunPhase::Created, RunEvent::SpawnSucceeded) => (
            RunPhase::Running,
            RunAction::StartBridging,
        ),
        (RunPhase::Created, RunEvent::SpawnRejected(m)) => (
            RunPhase::Failed(LaunchError::SpawnFailed(m)),
            RunAction::ReportFailure,
        ),
        (RunPhase::Running, RunEvent::ChildExited(status)) => (
            RunPhase::Completed(exit_code_spec(status)),
            RunAction::DrainOutputs,
        ),
        (RunPhase::Running, RunEvent::WaitRejected(m)) => (
            RunPhase::Failed(LaunchError::WaitFailed(m)),
            RunAction::KillChild,
        ),
        (RunPhase::Running, RunEvent::TerminationRequested) => (
            RunPhase::Cancelled,
            RunAction::KillChild,
        ),
        (p, _) => (p, RunAction::ReportFailure),
    }
}

/// Derives the exit code from a child's exit status.
pub fn exit_code_from(status: Option<i32>) -> (r: i32)
    ensures
        r == exit_code_spec(status),
{
    match status {
        Some(c) => c,
        None => -1,
    }
}

/// Advances the lifecycle by one observed event and names the action the
/// runner must take.
pub fn step(phase: RunPhase, event: RunEvent) -> (r: (RunPhase, RunAction))
    requires
        phase_accepts(phase, event),
    ensures
        r == step_spec(phase, event),
{
    match (phase, event) {
        (RunPhase::Created, RunEvent::SpawnSucceeded) => (
            RunPhase::Running,
            RunAction::StartBridging,
        ),
        (RunPhase::Created, RunEvent::SpawnRejected(m)) => (
            RunPhase::Failed(LaunchError::SpawnFailed(m)),
            RunAction::ReportFailure,
        ),
        (RunPhase::Running, RunEvent::ChildExited(status)) => (
            RunPhase::Completed(exit_code_from(status)),
            RunAction::DrainOutputs,
        ),
        (RunPhase::Running, RunEvent::WaitRejected(m)) => (
            RunPhase::Failed(LaunchError::WaitFailed(m)),
            RunAction::KillChild,
        ),
        (RunPhase::Running, RunEvent::TerminationRequested) => (
            RunPhase::Cancelled,
            RunAction::KillChild,
        ),
        (p, _) => (p, RunAction::ReportFailure),
    }
}

/// The result of a decided execution, as the caller reports it: the exit
/// code for a completed child, the sentinel `-1` for a cancelled one, and
/// the error itself for a failed one.
pub fn outcome(phase: RunPhase) -> (r: Result<i32, LaunchError>)
    requires
        is_terminal(phase),
    ensures
        r == outcome_spec_of(phase),
{
    match phase {
        RunPhase::Completed(c) => Ok(c),
        RunPhase::Cancelled => Ok(-1),
        RunPhase::Failed(e) => Err(e),
        _ => Ok(-1),
    }
}

/// No event is accepted in a terminal phase: once decided, an execution's
/// outcome never changes, so each terminal state is reached at most once.
pub proof fn lemma_terminal_is_final(phase: RunPhase, event: RunEvent)
    ensures
        is_terminal(phase) ==> !phase_accepts(phase, event),
{
}

/// Every event accepted while the child runs decides the execution: the
/// child exiting completes it, a wait failure fails it, and a termination
/// request cancels it — and the two cleanup paths (wait failure,
/// termination) both kill the child, so no process is left running.
pub proof fn lemma_running_resolves(event: RunEvent)
    ensures
        phase_accepts(RunPhase::Running, event) ==> is_terminal(
            step_spec(RunPhase::Running, event).0,
        ),
        phase_accepts(RunPhase::Running, event) && !(event is ChildExited) ==> step_spec(
            RunPhase::Running,
            event,
        ).1 is KillChild,
{
}

/// An execution cancelled by an external termination request reports the
/// sentinel `-1` — the same sentinel used for a child that died without a
/// usable exit code, applied uniformly.
pub proof fn lemma_cancellation_sentinel()
    ensures
        step_spec(RunPhase::Running, RunEvent::TerminationRequested).0 is Cancelled,
        outcome_spec_of(step_spec(RunPhase::Running, RunEvent::TerminationRequested).0)
            == Result::<i32, LaunchError>::Ok(-1i32),
        outcome_spec_of(step_spec(RunPhase::Running, RunEvent::ChildExited(None)).0)
            == Result::<i32, LaunchError>::Ok(-1i32),
{
}

/// What `outcome` returns for a terminal phase.
pub open spec fn outcome_spec_of(phase: RunPhase) -> Result<i32, LaunchError> {
    match phase {
        RunPhase::Completed(c) => Result::Ok(c),
        RunPhase::Cancelled => Result::Ok(-1i32),
        RunPhase::Failed(e) => Result::Err(e),
        _ => Result::Ok(-1i32),
    }
}

} // verus!
