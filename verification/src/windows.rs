//! Windows containment using job objects for process grouping.
//!
//! No unprivileged kernel namespace isolation exists on this platform, so
//! the strategy provides process-tree containment, not security
//! sandboxing. Builtins are rerouted through the command interpreter as on
//! the host strategy, the environment is cleared down to a fixed allowlist
//! of variables required for normal tool operation plus the context's
//! overrides, and with networking disallowed, proxy variables pointing at
//! an unreachable address are injected as a best-effort deterrent for
//! network-aware tools — explicitly not a security boundary. The kernel
//! job object that groups the spawned process tree for atomic teardown is
//! an OS handle the unverified runner acquires at spawn time, since none
//! exists before the spawn.

use vstd::prelude::*;

use crate::base::{ContextModel, ExecutionContext, IsolationStrategy};
use crate::command::{
    append_env, env_get, env_value_of, push_env, push_env_string, BuiltCommand, CommandModel,
    StdioMode,
};
use crate::errors::LaunchError;
use crate::probe::{HostProbe, ProbeModel};
use crate::reroute::{needs_interpreter, route_command, routed_args, routed_program};

verus! {

/// The inherited entry for `key`, kept if the inherited environment has
/// one, dropped otherwise.
pub open spec fn kept_entry(env: Seq<(Seq<char>, Seq<char>)>, key: Seq<char>) -> Seq<
    (Seq<char>, Seq<char>),
> {
    match env_value_of(env, key) {
        Some(v) => seq![(key, v)],
        None => Seq::empty(),
    }
}

/// The environment baseline: of the inherited environment, exactly the
/// variables required for normal tool operation (shell, search path, temp,
/// user profile, toolchain roots), in this fixed order.
pub open spec fn windows_base_env(env: Seq<(Seq<char>, Seq<char>)>) -> Seq<
    (Seq<char>, Seq<char>),
> {
    kept_entry(env, "SystemRoot"@) + kept_entry(env, "windir"@) + kept_entry(env, "PATH"@)
        + kept_entry(env, "PATHEXT"@) + kept_entry(env, "COMSPEC"@) + kept_entry(env, "TEMP"@)
        + kept_entry(env, "TMP"@) + kept_entry(env, "USERPROFILE"@) + kept_entry(
        env,
        "JAVA_HOME"@,
    )
}

/// The proxy entries injected when networking is disallowed: they point
/// every proxy-honouring tool at an unreachable address.
pub open spec fn proxy_entries(allow_network: bool) -> Seq<(Seq<char>, Seq<char>)> {
    if allow_network {
        Seq::empty()
    } else {
        seq![
            ("HTTP_PROXY"@, "http://0.0.0.0:0"@),
            ("HTTPS_PROXY"@, "http://0.0.0.0:0"@),
            ("ALL_PROXY"@, "socks5://0.0.0.0:0"@),
            ("NO_PROXY"@, ""@),
        ]
    }
}

/// The full environment: allowlisted baseline, proxy deterrent, then the
/// context's overrides last, so they win every tie.
pub open spec fn windows_env(ctx: ContextModel, probe: ProbeModel) -> Seq<
    (Seq<char>, Seq<char>),
> {
    windows_base_env(probe.env) + proxy_entries(ctx.allow_network) + ctx.env_vars
}

/// The command the job-object strategy builds.
pub open spec fn windows_command(ctx: ContextModel, probe: ProbeModel) -> CommandModel {
    let reroute = needs_interpreter(ctx.cmd);
    CommandModel {
        program: routed_program(ctx.cmd, probe.resolved_cmd, reroute),
        args: routed_args(ctx.cmd, ctx.args, reroute),
        clear_env: true,
        env: windows_env(ctx, probe),
        cwd: ctx.work_dir(),
        stdin: StdioMode::Null,
        stdout: StdioMode::Piped,
        stderr: StdioMode::Piped,
    }
}

/// Appends the inherited entry for `key` when there is one.
fn append_kept(out: &mut Vec<(String, String)>, env: &Vec<(String, String)>, key: &str)
    ensures
        final(out).deep_view() == old(out).deep_view() + kept_entry(env.deep_view(), key@),
{
    match env_get(env, key) {
        Some(v) => {
            push_env_string(out, key, v);
            proof {
                assert(out.deep_view() =~= old(out).deep_view() + kept_entry(
                    env.deep_view(),
                    key@,
                ));
            }
        },
        None => {
            proof {
                assert(out.deep_view() =~= old(out).deep_view() + kept_entry(
                    env.deep_view(),
                    key@,
                ));
            }
        },
    }
}

/// Process-tree containment: the built command's process and its children
/// are grouped by a kernel job object for atomic teardown.
#[derive(Clone, Copy, PartialEq, Eq, Structural, Debug)]
pub struct WindowsJobStrategy;

impl IsolationStrategy for WindowsJobStrategy {
    /// The job-object strategy needs no host-side tool before spawn time
    /// and never fails: it builds exactly `windows_command`.
    open spec fn builds(
        &self,
        ctx: ContextModel,
        probe: ProbeModel,
        r: Result<BuiltCommand, LaunchError>,
    ) -> bool {
        r matches Ok(c) && c@ == windows_command(ctx, probe)
    }

    fn build_command(&self, ctx: &ExecutionContext, probe: &HostProbe) -> (r: Result<
        BuiltCommand,
        LaunchError,
    >) {
        let (program, args) = route_command(&ctx.cmd, &ctx.args, &probe.resolved_cmd, true);
        let mut env: Vec<(String, String)> = Vec::new();
        append_kept(&mut env, &probe.env, "SystemRoot");
        append_kept(&mut env, &probe.env, "windir");
        append_kept(&mut env, &probe.env, "PATH");
        append_kept(&mut env, &probe.env, "PATHEXT");
        append_kept(&mut env, &probe.env, "COMSPEC");
        append_kept(&mut env, &probe.env, "TEMP");
        append_kept(&mut env, &probe.env, "TMP");
        append_kept(&mut env, &probe.env, "USERPROFILE");
        append_kept(&mut env, &probe.env, "JAVA_HOME");
        proof {
            assert(env.deep_view() =~= windows_base_env(probe@.env));
        }
        if !ctx.allow_network {
            push_env(&mut env, "HTTP_PROXY", "http://0.0.0.0:0");
            push_env(&mut env, "HTTPS_PROXY", "http://0.0.0.0:0");
            push_env(&mut env, "ALL_PROXY", "socks5://0.0.0.0:0");
            push_env(&mut env, "NO_PROXY", "");
        }
        proof {
            assert(env.deep_view() =~= windows_base_env(probe@.env) + proxy_entries(
                ctx@.allow_network,
            ));
        }
        append_env(&mut env, &ctx.env_vars);
        let cwd = match &ctx.cwd {
            Some(c) => c.clone(),
            None => ctx.root_path.clone(),
        };
        let built = BuiltCommand {
            program,
            args,
            clear_env: true,
            env,
            cwd,
            stdin: StdioMode::Null,
            stdout: StdioMode::Piped,
            stderr: StdioMode::Piped,
        };
        proof {
            assert(built@.env =~= windows_env(ctx@, probe@));
            assert(built@ =~= windows_command(ctx@, probe@));
        }
        Ok(built)
    }

    fn name(&self) -> (r: &'static str)
        ensures
            r@ == "Windows Job Object (Process Grouping)"@,
    {
        "Windows Job Object (Process Grouping)"
    }
}

} // verus!
