//! Fallback strategy that executes commands without isolation.

use vstd::prelude::*;

use crate::base::{ContextModel, ExecutionContext, IsolationStrategy};
use crate::command::{append_env, BuiltCommand, CommandModel, StdioMode};
use crate::errors::LaunchError;
use crate::probe::{HostProbe, Platform, ProbeModel};
use crate::reroute::{needs_interpreter, route_command, routed_args, routed_program};

verus! {

/// Runs the command directly on the host: the program is resolved by
/// standard executable lookup (builtins rerouted through the interpreter on
/// the platform that needs it), the environment overrides are layered over
/// the inherited environment, and the working directory follows the
/// context's `cwd`-or-root rule.
#[derive(Clone, Copy, PartialEq, Eq, Structural, Debug)]
pub struct HostStrategy;

/// The command the host strategy builds.
pub open spec fn host_command(ctx: ContextModel, probe: ProbeModel) -> CommandModel {
    let reroute = probe.platform == Platform::Windows && needs_interpreter(ctx.cmd);
    CommandModel {
        program: routed_program(ctx.cmd, probe.resolved_cmd, reroute),
        args: routed_args(ctx.cmd, ctx.args, reroute),
        clear_env: false,
        env: ctx.env_vars,
        cwd: ctx.work_dir(),
        stdin: StdioMode::Null,
        stdout: StdioMode::Piped,
        stderr: StdioMode::Piped,
    }
}

impl IsolationStrategy for HostStrategy {
    /// The host strategy needs no host-side tool and never fails: it builds
    /// exactly `host_command`.
    open spec fn builds(
        &self,
        ctx: ContextModel,
        probe: ProbeModel,
        r: Result<BuiltCommand, LaunchError>,
    ) -> bool {
        r matches Ok(c) && c@ == host_command(ctx, probe)
    }

    fn build_command(&self, ctx: &ExecutionContext, probe: &HostProbe) -> (r: Result<
        BuiltCommand,
        LaunchError,
    >) {
        let (program, args) = route_command(
            &ctx.cmd,
            &ctx.args,
            &probe.resolved_cmd,
            probe.platform == Platform::Windows,
        );
        let mut env: Vec<(String, String)> = Vec::new();
        append_env(&mut env, &ctx.env_vars);
        let cwd = match &ctx.cwd {
            Some(c) => c.clone(),
            None => ctx.root_path.clone(),
        };
        let built = BuiltCommand {
            program,
            args,
            clear_env: false,
            env,
            cwd,
            stdin: StdioMode::Null,
            stdout: StdioMode::Piped,
            stderr: StdioMode::Piped,
        };
        proof {
            assert(built@.env =~= ctx@.env_vars);
            assert(built@ =~= host_command(ctx@, probe@));
        }
        Ok(built)
    }

    fn name(&self) -> (r: &'static str)
        ensures
            r@ == "Host (No Isolation)"@,
    {
        "Host (No Isolation)"
    }
}

} // verus!
