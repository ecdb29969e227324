//! Properties of command construction that hold across every strategy,
//! stated once over the engine's dispatch and proved from the strategies'
//! exact contracts.

use vstd::prelude::*;

use crate::base::ContextModel;
use crate::command::{
    effective_env, env_value_of, lemma_overrides_win, unique_keys, BuiltCommand, StdioMode,
};
use crate::engine::{Engine, StrategyChoice};
use crate::errors::LaunchError;
use crate::linux::workspace_mount;
use crate::probe::ProbeModel;

verus! {

/// Command construction only reads the context (it takes a shared
/// borrow), and every command it yields has stdin closed and both output
/// streams captured, whatever the strategy.
pub proof fn lemma_stdio_contract(
    e: &Engine,
    ctx: ContextModel,
    probe: ProbeModel,
    r: Result<BuiltCommand, LaunchError>,
)
    requires
        e.builds(ctx, probe, r),
    ensures
        r matches Ok(c) ==> c@.stdin == StdioMode::Null && c@.stdout == StdioMode::Piped
            && c@.stderr == StdioMode::Piped,
{
}

/// The host-side tool each strategy depends on before it can build
/// anything: the namespace-sandboxing helper on Linux and the
/// profile-sandboxing helper on macOS; the host and job-object strategies
/// need none.
pub open spec fn required_tool_present(s: StrategyChoice, probe: ProbeModel) -> bool {
    match s {
        StrategyChoice::Host(_) => true,
        StrategyChoice::LinuxNamespace(_) => probe.bwrap_path is Some,
        StrategyChoice::MacSeatbelt(_) => probe.sandbox_exec_present,
        StrategyChoice::WindowsJob(_) => true,
    }
}

/// Command construction fails exactly when the strategy's required host
/// tool is absent, and then always with `ToolMissing`: a sandbox failure
/// is never silently downgraded to unsandboxed execution, and nothing is
/// spawned (construction cannot spawn).
pub proof fn lemma_tool_missing(
    e: &Engine,
    ctx: ContextModel,
    probe: ProbeModel,
    r: Result<BuiltCommand, LaunchError>,
)
    requires
        e.builds(ctx, probe, r),
    ensures
        r is Err <==> !required_tool_present(e.strategy, probe),
        r matches Err(err) ==> err is ToolMissing,
{
}

/// An explicit `env_vars` entry always reaches the child verbatim: for
/// every strategy, the environment the built command gives the child maps
/// the entry's key to its value, overriding any same-named inherited or
/// forced value.
pub proof fn lemma_env_override(
    e: &Engine,
    ctx: ContextModel,
    probe: ProbeModel,
    inherited: Seq<(Seq<char>, Seq<char>)>,
    r: Result<BuiltCommand, LaunchError>,
    key: Seq<char>,
    v: Seq<char>,
)
    requires
        e.builds(ctx, probe, r),
        unique_keys(ctx.env_vars),
        ctx.env_vars.contains((key, v)),
    ensures
        r matches Ok(c) ==> env_value_of(effective_env(c@, inherited), key) == Some(v),
{
    match e.strategy {
        StrategyChoice::Host(_) => {
            lemma_overrides_win(inherited, ctx.env_vars, key, v);
        },
        StrategyChoice::LinuxNamespace(_) => {
            lemma_overrides_win(
                probe.env + seq![("HOME"@, workspace_mount()), ("TERM"@, "xterm-256color"@)],
                ctx.env_vars,
                key,
                v,
            );
        },
        StrategyChoice::MacSeatbelt(_) => {
            lemma_overrides_win(probe.env, ctx.env_vars, key, v);
        },
        StrategyChoice::WindowsJob(_) => {
            lemma_overrides_win(
                crate::windows::windows_base_env(probe.env) + crate::windows::proxy_entries(
                    ctx.allow_network,
                ),
                ctx.env_vars,
                key,
                v,
            );
        },
    }
}

/// Building is idempotent: two commands built from the same immutable
/// context and the same host facts agree completely — same program, same
/// arguments, same environment — and when construction fails instead, it
/// fails both times with the same message.
pub proof fn lemma_build_idempotent(
    e: &Engine,
    ctx: ContextModel,
    probe: ProbeModel,
    r1: Result<BuiltCommand, LaunchError>,
    r2: Result<BuiltCommand, LaunchError>,
)
    requires
        e.builds(ctx, probe, r1),
        e.builds(ctx, probe, r2),
    ensures
        r1 is Ok <==> r2 is Ok,
        r1 is Ok && r2 is Ok ==> r1->Ok_0@ == r2->Ok_0@,
        r1 is Err && r2 is Err ==> r1->Err_0.message_view() == r2->Err_0.message_view(),
{
    match e.strategy {
        StrategyChoice::Host(_) => {
        },
        StrategyChoice::LinuxNamespace(_) => {
        },
        StrategyChoice::MacSeatbelt(_) => {
        },
        StrategyChoice::WindowsJob(_) => {
        },
    }
}

} // verus!
