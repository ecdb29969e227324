//! macOS isolation using Seatbelt (`sandbox-exec`).
//!
//! The strategy generates a declarative sandbox profile granting a broad
//! default-allow policy, denying filesystem writes everywhere except an
//! explicit allowlist (the workspace root, the standard temp directories, a
//! shared directory, and a fixed set of per-user tool-cache directories),
//! and allowing or denying all network operations by policy.

use vstd::prelude::*;

use crate::base::{ContextModel, ExecutionContext, IsolationStrategy};
use crate::command::{
    append_args, append_env, env_get, env_value_of, push_arg, push_arg_string, BuiltCommand,
    CommandModel, StdioMode,
};
use crate::errors::LaunchError;
use crate::probe::{HostProbe, ProbeModel};

verus! {

/// The network rule of the generated profile.
pub open spec fn network_policy_text(allow_network: bool) -> Seq<char> {
    if allow_network {
        "(allow network*)"@
    } else {
        "(deny network*)"@
    }
}

/// The home directory used for the per-user tool-cache allowlist: the
/// inherited `HOME`, or the shared temp directory when none is set.
pub open spec fn seatbelt_home(env: Seq<(Seq<char>, Seq<char>)>) -> Seq<char> {
    match env_value_of(env, "HOME"@) {
        Some(h) => h,
        None => "/var/tmp"@,
    }
}

/// The full profile text for the given workspace root, home directory and
/// network policy.
pub open spec fn seatbelt_profile(
    workspace: Seq<char>,
    home: Seq<char>,
    allow_network: bool,
) -> Seq<char> {
    "(version 1)\n(allow default)\n\n(deny file-write* (subpath \"/\"))\n\n(allow file-write*\n    (subpath \""@
        + workspace
        + "\")\n    (subpath \"/private/var/folders\")\n    (subpath \"/tmp\")\n    (subpath \"/var/tmp\")\n    (subpath \"/Users/Shared\")\n    (subpath \""@
        + home + "/.m2\")\n    (subpath \""@ + home + "/.gradle\")\n    (subpath \""@ + home
        + "/.dart_tool\")\n)\n\n"@ + network_policy_text(allow_network)
        + "\n\n(allow process-exec)\n(allow process-fork)\n(allow mach-lookup)\n"@
}

/// Renders the profile text. A pure string-templating function: the result
/// depends on its arguments alone.
pub fn seatbelt_profile_text(workspace: &str, home: &str, allow_network: bool) -> (r: String)
    ensures
        r@ == seatbelt_profile(workspace@, home@, allow_network),
{
    let mut p = String::from_str(
        "(version 1)\n(allow default)\n\n(deny file-write* (subpath \"/\"))\n\n(allow file-write*\n    (subpath \"",
    );
    p.append(workspace);
    p.append(
        "\")\n    (subpath \"/private/var/folders\")\n    (subpath \"/tmp\")\n    (subpath \"/var/tmp\")\n    (subpath \"/Users/Shared\")\n    (subpath \"",
    );
    p.append(home);
    p.append("/.m2\")\n    (subpath \"");
    p.append(home);
    p.append("/.gradle\")\n    (subpath \"");
    p.append(home);
    p.append("/.dart_tool\")\n)\n\n");
    if allow_network {
        p.append("(allow network*)");
    } else {
        p.append("(deny network*)");
    }
    p.append("\n\n(allow process-exec)\n(allow process-fork)\n(allow mach-lookup)\n");
    p
}

/// Profile-based isolation: the profile-sandboxing helper is invoked with
/// the generated profile text and the target command appended; the
/// environment is cleared and rebuilt from the inherited environment plus
/// the context's overrides.
#[derive(Clone, Copy, PartialEq, Eq, Structural, Debug)]
pub struct MacOsSandboxStrategy;

/// The command the Seatbelt strategy builds when the helper is present.
pub open spec fn seatbelt_command(ctx: ContextModel, probe: ProbeModel) -> CommandModel {
    CommandModel {
        program: "/usr/bin/sandbox-exec"@,
        args: seq![
            "-p"@,
            seatbelt_profile(ctx.root_path, seatbelt_home(probe.env), ctx.allow_network),
            ctx.cmd,
        ] + ctx.args,
        clear_env: true,
        env: probe.env + ctx.env_vars,
        cwd: ctx.work_dir(),
        stdin: StdioMode::Null,
        stdout: StdioMode::Piped,
        stderr: StdioMode::Piped,
    }
}

impl IsolationStrategy for MacOsSandboxStrategy {
    /// With the profile-sandboxing helper present the strategy builds
    /// exactly `seatbelt_command`; without it, it fails with `ToolMissing`
    /// and this message, and never degrades to unsandboxed execution.
    open spec fn builds(
        &self,
        ctx: ContextModel,
        probe: ProbeModel,
        r: Result<BuiltCommand, LaunchError>,
    ) -> bool {
        if probe.sandbox_exec_present {
            r matches Ok(c) && c@ == seatbelt_command(ctx, probe)
        } else {
            r matches Err(e) && e matches LaunchError::ToolMissing(m) && m@
                == "sandbox-exec not found on this system"@
        }
    }

    fn build_command(&self, ctx: &ExecutionContext, probe: &HostProbe) -> (r: Result<
        BuiltCommand,
        LaunchError,
    >) {
        if !probe.sandbox_exec_present {
            return Err(
                LaunchError::ToolMissing(String::from_str("sandbox-exec not found on this system")),
            );
        }
        let home = match env_get(&probe.env, "HOME") {
            Some(h) => h,
            None => String::from_str("/var/tmp"),
        };
        let profile = seatbelt_profile_text(
            ctx.root_path.as_str(),
            home.as_str(),
            ctx.allow_network,
        );
        let mut args: Vec<String> = Vec::new();
        push_arg(&mut args, "-p");
        push_arg_string(&mut args, profile);
        push_arg_string(&mut args, ctx.cmd.clone());
        append_args(&mut args, &ctx.args);
        let mut env: Vec<(String, String)> = Vec::new();
        append_env(&mut env, &probe.env);
        append_env(&mut env, &ctx.env_vars);
        let cwd = match &ctx.cwd {
            Some(c) => c.clone(),
            None => ctx.root_path.clone(),
        };
        let built = BuiltCommand {
            program: String::from_str("/usr/bin/sandbox-exec"),
            args,
            clear_env: true,
            env,
            cwd,
            stdin: StdioMode::Null,
            stdout: StdioMode::Piped,
            stderr: StdioMode::Piped,
        };
        proof {
            assert(built@.args =~= seatbelt_command(ctx@, probe@).args);
            assert(built@.env =~= seatbelt_command(ctx@, probe@).env);
            assert(built@ =~= seatbelt_command(ctx@, probe@));
        }
        Ok(built)
    }

    fn name(&self) -> (r: &'static str)
        ensures
            r@ == "macOS Seatbelt (Read-Only Host)"@,
    {
        "macOS Seatbelt (Read-Only Host)"
    }
}

} // verus!
