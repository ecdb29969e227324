//! Linux isolation using the namespace-sandboxing helper (Bubblewrap).
//!
//! The built invocation asks the helper for fresh PID, IPC, UTS and user
//! namespaces that die with the launcher, assembles a minimal root
//! filesystem (a read-only `/usr` with usr-merge compatibility symlinks, a
//! fresh `/proc` and `/dev`, a writable `/tmp`), binds the probed
//! configuration paths and toolchain roots read-only, toggles network
//! sharing by policy, mounts the workspace writable at a fixed internal
//! mount point, drops all capabilities, and runs the target command behind
//! a `--` separator. The environment is cleared, the launcher's own
//! environment passed through as the baseline, `HOME` and `TERM` forced to
//! sandbox-appropriate values, and the context's overrides layered last, so
//! an explicit override always wins.

use vstd::prelude::*;

use crate::base::{ContextModel, ExecutionContext, IsolationStrategy};
use crate::command::{
    append_args, append_env, push_arg, push_arg_string, push_env, BuiltCommand, CommandModel,
    StdioMode,
};
use crate::errors::LaunchError;
use crate::probe::{HostProbe, ProbeModel};

verus! {

/// The internal mount point where the workspace root appears inside the
/// sandbox; also the forced `HOME`, so tools have a writable home.
pub open spec fn workspace_mount() -> Seq<char> {
    "/workspace"@
}

/// Flags creating the new namespaces, tied to the launcher's lifetime.
pub open spec fn namespace_flags() -> Seq<Seq<char>> {
    seq![
        "--die-with-parent"@,
        "--unshare-user"@,
        "--unshare-pid"@,
        "--unshare-ipc"@,
        "--unshare-uts"@,
    ]
}

/// The network namespace flag: share the host's network when allowed,
/// unshare it otherwise.
pub open spec fn network_flag(allow_network: bool) -> Seq<char> {
    if allow_network {
        "--share-net"@
    } else {
        "--unshare-net"@
    }
}

/// Flags assembling the minimal root filesystem: `/usr` read-only with
/// usr-merge compatibility symlinks, a fresh `/proc` and `/dev`, and a
/// writable `/tmp`.
pub open spec fn rootfs_flags() -> Seq<Seq<char>> {
    seq![
        "--ro-bind"@,
        "/usr"@,
        "/usr"@,
        "--symlink"@,
        "usr/bin"@,
        "/bin"@,
        "--symlink"@,
        "usr/sbin"@,
        "/sbin"@,
        "--symlink"@,
        "usr/lib"@,
        "/lib"@,
        "--symlink"@,
        "usr/lib64"@,
        "/lib64"@,
        "--proc"@,
        "/proc"@,
        "--dev"@,
        "/dev"@,
        "--tmpfs"@,
        "/tmp"@,
    ]
}

/// A read-only bind for each probed `(source, destination)` pair.
pub open spec fn ro_bind_flags(binds: Seq<(Seq<char>, Seq<char>)>) -> Seq<Seq<char>>
    decreases binds.len(),
{
    if binds.len() == 0 {
        Seq::empty()
    } else {
        ro_bind_flags(binds.drop_last()) + seq![
            "--ro-bind"@,
            binds.last().0,
            binds.last().1,
        ]
    }
}

/// A read-only bind of each probed directory at its own path.
pub open spec fn dir_bind_flags(dirs: Seq<Seq<char>>) -> Seq<Seq<char>>
    decreases dirs.len(),
{
    if dirs.len() == 0 {
        Seq::empty()
    } else {
        dir_bind_flags(dirs.drop_last()) + seq!["--ro-bind"@, dirs.last(), dirs.last()]
    }
}

/// Flags mounting the workspace writable at the internal mount point,
/// making it the working directory, and dropping all capabilities.
pub open spec fn workspace_flags(root: Seq<char>) -> Seq<Seq<char>> {
    seq![
        "--bind"@,
        root,
        workspace_mount(),
        "--chdir"@,
        workspace_mount(),
        "--cap-drop"@,
        "ALL"@,
    ]
}

/// The helper's own argument list, everything before the `--` separator.
pub open spec fn helper_flags(ctx: ContextModel, probe: ProbeModel) -> Seq<Seq<char>> {
    namespace_flags() + seq![network_flag(ctx.allow_network)] + rootfs_flags() + ro_bind_flags(
        probe.etc_binds,
    ) + dir_bind_flags(probe.extra_dirs) + workspace_flags(ctx.root_path)
}

/// The full argument vector: the helper's flags, the separator, then the
/// literal target command and its arguments.
pub open spec fn bwrap_args(ctx: ContextModel, probe: ProbeModel) -> Seq<Seq<char>> {
    helper_flags(ctx, probe) + seq!["--"@, ctx.cmd] + ctx.args
}

/// The environment of the built invocation: the launcher's environment as
/// the baseline, the forced sandbox `HOME` and `TERM`, and the context's
/// overrides last, so they win every tie.
pub open spec fn bwrap_env(ctx: ContextModel, probe: ProbeModel) -> Seq<(Seq<char>, Seq<char>)> {
    probe.env + seq![("HOME"@, workspace_mount()), ("TERM"@, "xterm-256color"@)] + ctx.env_vars
}

/// The command the namespace strategy builds when the helper was found at
/// `helper`.
pub open spec fn bwrap_command(
    ctx: ContextModel,
    probe: ProbeModel,
    helper: Seq<char>,
) -> CommandModel {
    CommandModel {
        program: helper,
        args: bwrap_args(ctx, probe),
        clear_env: true,
        env: bwrap_env(ctx, probe),
        cwd: ctx.root_path,
        stdin: StdioMode::Null,
        stdout: StdioMode::Piped,
        stderr: StdioMode::Piped,
    }
}

fn append_namespace_flags(args: &mut Vec<String>, allow_network: bool)
    ensures
        final(args).deep_view() == old(args).deep_view() + namespace_flags() + seq![
            network_flag(allow_network),
        ],
{
    push_arg(args, "--die-with-parent");
    push_arg(args, "--unshare-user");
    push_arg(args, "--unshare-pid");
    push_arg(args, "--unshare-ipc");
    push_arg(args, "--unshare-uts");
    if allow_network {
        push_arg(args, "--share-net");
    } else {
        push_arg(args, "--unshare-net");
    }
    proof {
        assert(args.deep_view() =~= old(args).deep_view() + namespace_flags() + seq![
            network_flag(allow_network),
        ]);
    }
}

fn append_rootfs_flags(args: &mut Vec<String>)
    ensures
        final(args).deep_view() == old(args).deep_view() + rootfs_flags(),
{
    push_arg(args, "--ro-bind");
    push_arg(args, "/usr");
    push_arg(args, "/usr");
    push_arg(args, "--symlink");
    push_arg(args, "usr/bin");
    push_arg(args, "/bin");
    push_arg(args, "--symlink");
    push_arg(args, "usr/sbin");
    push_arg(args, "/sbin");
    push_arg(args, "--symlink");
    push_arg(args, "usr/lib");
    push_arg(args, "/lib");
    push_arg(args, "--symlink");
    push_arg(args, "usr/lib64");
    push_arg(args, "/lib64");
    push_arg(args, "--proc");
    push_arg(args, "/proc");
    push_arg(args, "--dev");
    push_arg(args, "/dev");
    push_arg(args, "--tmpfs");
    push_arg(args, "/tmp");
    proof {
        assert(args.deep_view() =~= old(args).deep_view() + rootfs_flags());
    }
}

fn append_ro_binds(args: &mut Vec<String>, binds: &Vec<(String, String)>)
    ensures
        final(args).deep_view() == old(args).deep_view() + ro_bind_flags(binds.deep_view()),
{
    let mut i: usize = 0;
    while i < binds.len()
        invariant
            i <= binds.len(),
            args.deep_view() == old(args).deep_view() + ro_bind_flags(
                binds.deep_view().take(i as int),
            ),
        decreases binds.len() - i,
    {
        push_arg(args, "--ro-bind");
        let src = binds[i].0.clone();
        let dst = binds[i].1.clone();
        proof {
            assert((src@, dst@) == binds.deep_view()[i as int]);
        }
        push_arg_string(args, src);
        push_arg_string(args, dst);
        proof {
            let dv = binds.deep_view();
            assert(dv.take(i + 1).drop_last() =~= dv.take(i as int));
            assert(dv.take(i + 1).last() == dv[i as int]);
            assert(args.deep_view() =~= old(args).deep_view() + ro_bind_flags(dv.take(i + 1)));
        }
        i += 1;
    }
    proof {
        assert(binds.deep_view().take(binds.len() as int) =~= binds.deep_view());
    }
}

fn append_dir_binds(args: &mut Vec<String>, dirs: &Vec<String>)
    ensures
        final(args).deep_view() == old(args).deep_view() + dir_bind_flags(dirs.deep_view()),
{
    let mut i: usize = 0;
    while i < dirs.len()
        invariant
            i <= dirs.len(),
            args.deep_view() == old(args).deep_view() + dir_bind_flags(
                dirs.deep_view().take(i as int),
            ),
        decreases dirs.len() - i,
    {
        push_arg(args, "--ro-bind");
        let d = dirs[i].clone();
        let d2 = dirs[i].clone();
        proof {
            assert(d@ == dirs.deep_view()[i as int]);
            assert(d2@ == dirs.deep_view()[i as int]);
        }
        push_arg_string(args, d);
        push_arg_string(args, d2);
        proof {
            let dv = dirs.deep_view();
            assert(dv.take(i + 1).drop_last() =~= dv.take(i as int));
            assert(dv.take(i + 1).last() == dv[i as int]);
            assert(args.deep_view() =~= old(args).deep_view() + dir_bind_flags(dv.take(i + 1)));
        }
        i += 1;
    }
    proof {
        assert(dirs.deep_view().take(dirs.len() as int) =~= dirs.deep_view());
    }
}

fn append_workspace_flags(args: &mut Vec<String>, root: &String)
    ensures
        final(args).deep_view() == old(args).deep_view() + workspace_flags(root@),
{
    push_arg(args, "--bind");
    push_arg_string(args, root.clone());
    push_arg(args, "/workspace");
    push_arg(args, "--chdir");
    push_arg(args, "/workspace");
    push_arg(args, "--cap-drop");
    push_arg(args, "ALL");
    proof {
        assert(args.deep_view() =~= old(args).deep_view() + workspace_flags(root@));
    }
}

/// Namespace isolation through the sandboxing helper; requires the helper
/// binary on the host and never falls back to unsandboxed execution.
#[derive(Clone, Copy, PartialEq, Eq, Structural, Debug)]
pub struct LinuxBwrapStrategy;

impl IsolationStrategy for LinuxBwrapStrategy {
    /// With the helper found at some path the strategy builds exactly
    /// `bwrap_command` for that path; without it, it fails with
    /// `ToolMissing` naming the helper and an install hint.
    open spec fn builds(
        &self,
        ctx: ContextModel,
        probe: ProbeModel,
        r: Result<BuiltCommand, LaunchError>,
    ) -> bool {
        match probe.bwrap_path {
            Some(helper) => r matches Ok(c) && c@ == bwrap_command(ctx, probe, helper),
            None => r matches Err(e) && e matches LaunchError::ToolMissing(m) && m@
                == "bwrap not found. Install with: sudo apt install bubblewrap"@,
        }
    }

    fn build_command(&self, ctx: &ExecutionContext, probe: &HostProbe) -> (r: Result<
        BuiltCommand,
        LaunchError,
    >) {
        let helper = match &probe.bwrap_path {
            Some(p) => p.clone(),
            None => {
                return Err(
                    LaunchError::ToolMissing(
                        String::from_str(
                            "bwrap not found. Install with: sudo apt install bubblewrap",
                        ),
                    ),
                );
            },
        };
        let mut args: Vec<String> = Vec::new();
        append_namespace_flags(&mut args, ctx.allow_network);
        append_rootfs_flags(&mut args);
        append_ro_binds(&mut args, &probe.etc_binds);
        append_dir_binds(&mut args, &probe.extra_dirs);
        append_workspace_flags(&mut args, &ctx.root_path);
        push_arg(&mut args, "--");
        push_arg_string(&mut args, ctx.cmd.clone());
        append_args(&mut args, &ctx.args);
        proof {
            assert(args.deep_view() =~= bwrap_args(ctx@, probe@));
        }
        let mut env: Vec<(String, String)> = Vec::new();
        append_env(&mut env, &probe.env);
        push_env(&mut env, "HOME", "/workspace");
        push_env(&mut env, "TERM", "xterm-256color");
        append_env(&mut env, &ctx.env_vars);
        proof {
            assert(env.deep_view() =~= bwrap_env(ctx@, probe@));
        }
        let built = BuiltCommand {
            program: helper,
            args,
            clear_env: true,
            env,
            cwd: ctx.root_path.clone(),
            stdin: StdioMode::Null,
            stdout: StdioMode::Piped,
            stderr: StdioMode::Piped,
        };
        proof {
            assert(built@ =~= bwrap_command(ctx@, probe@, probe@.bwrap_path.unwrap()));
        }
        Ok(built)
    }

    fn name(&self) -> (r: &'static str)
        ensures
            r@ == "Linux Bubblewrap"@,
    {
        "Linux Bubblewrap"
    }
}

/// The argument is one of the two network namespace flags.
pub open spec fn is_net_flag(a: Seq<char>) -> bool {
    a == "--share-net"@ || a == "--unshare-net"@
}

/// No element of the list is a network namespace flag.
pub open spec fn no_net_flags(s: Seq<Seq<char>>) -> bool {
    forall|i: int| 0 <= i < s.len() ==> !is_net_flag(#[trigger] s[i])
}

proof fn lemma_no_net_flags_app(a: Seq<Seq<char>>, b: Seq<Seq<char>>)
    requires
        no_net_flags(a),
        no_net_flags(b),
    ensures
        no_net_flags(a + b),
{
    assert forall|i: int| 0 <= i < (a + b).len() implies !is_net_flag(#[trigger] (a + b)[i]) by {
        if i < a.len() {
            assert((a + b)[i] == a[i]);
        } else {
            assert((a + b)[i] == b[i - a.len()]);
        }
    }
}

proof fn lemma_fixed_flags_no_net()
    ensures
        "--share-net"@ != "--unshare-net"@,
        "--share-net"@.len() > 0 && "--share-net"@[0] == '-',
        "--unshare-net"@.len() > 0 && "--unshare-net"@[0] == '-',
        no_net_flags(namespace_flags()),
        no_net_flags(rootfs_flags()),
        !is_net_flag("--ro-bind"@),
        !is_net_flag("--bind"@),
        !is_net_flag("--chdir"@),
        !is_net_flag("--cap-drop"@),
        !is_net_flag("ALL"@),
        !is_net_flag(workspace_mount()),
{
    reveal_strlit("--share-net");
    reveal_strlit("--unshare-net");
    reveal_strlit("--die-with-parent");
    reveal_strlit("--unshare-user");
    reveal_strlit("--unshare-pid");
    reveal_strlit("--unshare-ipc");
    reveal_strlit("--unshare-uts");
    reveal_strlit("--ro-bind");
    reveal_strlit("/usr");
    reveal_strlit("--symlink");
    reveal_strlit("usr/bin");
    reveal_strlit("/bin");
    reveal_strlit("usr/sbin");
    reveal_strlit("/sbin");
    reveal_strlit("usr/lib");
    reveal_strlit("/lib");
    reveal_strlit("usr/lib64");
    reveal_strlit("/lib64");
    reveal_strlit("--proc");
    reveal_strlit("/proc");
    reveal_strlit("--dev");
    reveal_strlit("/dev");
    reveal_strlit("--tmpfs");
    reveal_strlit("/tmp");
    reveal_strlit("--bind");
    reveal_strlit("--chdir");
    reveal_strlit("--cap-drop");
    reveal_strlit("ALL");
    reveal_strlit("/workspace");
    assert("--share-net"@.len() == 11);
    assert("--unshare-net"@.len() == 13);
    assert("--die-with-parent"@.len() == 17);
    assert("--unshare-user"@.len() == 14);
    assert("--ro-bind"@.len() == 9);
    assert("/usr"@.len() == 4);
    assert("--symlink"@.len() == 9);
    assert("usr/bin"@.len() == 7);
    assert("/bin"@.len() == 4);
    assert("usr/sbin"@.len() == 8);
    assert("/sbin"@.len() == 5);
    assert("usr/lib"@.len() == 7);
    assert("/lib"@.len() == 4);
    assert("usr/lib64"@.len() == 9);
    assert("/lib64"@.len() == 6);
    assert("--proc"@.len() == 6);
    assert("/proc"@.len() == 5);
    assert("--dev"@.len() == 5);
    assert("/dev"@.len() == 4);
    assert("--tmpfs"@.len() == 7);
    assert("/tmp"@.len() == 4);
    assert("--bind"@.len() == 6);
    assert("--chdir"@.len() == 7);
    assert("--cap-drop"@.len() == 10);
    assert("ALL"@.len() == 3);
    assert("/workspace"@.len() == 10);
    assert("--unshare-pid"@[10] != "--unshare-net"@[10]);
    assert("--unshare-ipc"@[10] != "--unshare-net"@[10]);
    assert("--unshare-uts"@[10] != "--unshare-net"@[10]);
    assert(no_net_flags(namespace_flags())) by {
        assert forall|i: int| 0 <= i < namespace_flags().len() implies !is_net_flag(
            #[trigger] namespace_flags()[i],
        ) by {
            assert(namespace_flags()[0] == "--die-with-parent"@);
            assert(namespace_flags()[1] == "--unshare-user"@);
            assert(namespace_flags()[2] == "--unshare-pid"@);
            assert(namespace_flags()[3] == "--unshare-ipc"@);
            assert(namespace_flags()[4] == "--unshare-uts"@);
        }
    }
    assert(no_net_flags(rootfs_flags())) by {
        assert forall|i: int| 0 <= i < rootfs_flags().len() implies !is_net_flag(
            #[trigger] rootfs_flags()[i],
        ) by {
            assert(rootfs_flags()[0] == "--ro-bind"@);
            assert(rootfs_flags()[1] == "/usr"@);
            assert(rootfs_flags()[2] == "/usr"@);
            assert(rootfs_flags()[3] == "--symlink"@);
            assert(rootfs_flags()[4] == "usr/bin"@);
            assert(rootfs_flags()[5] == "/bin"@);
            assert(rootfs_flags()[6] == "--symlink"@);
            assert(rootfs_flags()[7] == "usr/sbin"@);
            assert(rootfs_flags()[8] == "/sbin"@);
            assert(rootfs_flags()[9] == "--symlink"@);
            assert(rootfs_flags()[10] == "usr/lib"@);
            assert(rootfs_flags()[11] == "/lib"@);
            assert(rootfs_flags()[12] == "--symlink"@);
            assert(rootfs_flags()[13] == "usr/lib64"@);
            assert(rootfs_flags()[14] == "/lib64"@);
            assert(rootfs_flags()[15] == "--proc"@);
            assert(rootfs_flags()[16] == "/proc"@);
            assert(rootfs_flags()[17] == "--dev"@);
            assert(rootfs_flags()[18] == "/dev"@);
            assert(rootfs_flags()[19] == "--tmpfs"@);
            assert(rootfs_flags()[20] == "/tmp"@);
        }
    }
}

proof fn lemma_ro_binds_no_net(binds: Seq<(Seq<char>, Seq<char>)>)
    requires
        forall|i: int|
            0 <= i < binds.len() ==> (#[trigger] binds[i]).0.len() > 0 && binds[i].0[0] == '/'
                && binds[i].1.len() > 0 && binds[i].1[0] == '/',
    ensures
        no_net_flags(ro_bind_flags(binds)),
    decreases binds.len(),
{
    lemma_fixed_flags_no_net();
    if binds.len() > 0 {
        lemma_ro_binds_no_net(binds.drop_last());
        let tail = seq!["--ro-bind"@, binds.last().0, binds.last().1];
        assert(no_net_flags(tail)) by {
            assert(binds.last() == binds[binds.len() - 1]);
            assert(tail[0] == "--ro-bind"@);
            assert(tail[1] == binds.last().0);
            assert(tail[2] == binds.last().1);
        }
        lemma_no_net_flags_app(ro_bind_flags(binds.drop_last()), tail);
    }
}

proof fn lemma_dir_binds_no_net(dirs: Seq<Seq<char>>)
    requires
        forall|i: int| 0 <= i < dirs.len() ==> (#[trigger] dirs[i]).len() > 0 && dirs[i][0] == '/',
    ensures
        no_net_flags(dir_bind_flags(dirs)),
    decreases dirs.len(),
{
    lemma_fixed_flags_no_net();
    if dirs.len() > 0 {
        lemma_dir_binds_no_net(dirs.drop_last());
        let tail = seq!["--ro-bind"@, dirs.last(), dirs.last()];
        assert(no_net_flags(tail)) by {
            assert(dirs.last() == dirs[dirs.len() - 1]);
            assert(tail[0] == "--ro-bind"@);
            assert(tail[1] == dirs.last());
            assert(tail[2] == dirs.last());
        }
        lemma_no_net_flags_app(dir_bind_flags(dirs.drop_last()), tail);
    }
}

/// With networking disallowed, the helper's own argument list carries the
/// network-namespace-unshare flag; with it allowed, the network-share
/// flag — and never both. The helper reads its flags only up to the `--`
/// separator, so the target command and arguments behind it cannot smuggle
/// one in.
pub proof fn lemma_network_toggle(ctx: ContextModel, probe: ProbeModel)
    requires
        probe.paths_absolute(),
        ctx.root_path.len() > 0,
        ctx.root_path[0] == '/',
    ensures
        helper_flags(ctx, probe).contains(network_flag(ctx.allow_network)),
        !helper_flags(ctx, probe).contains(network_flag(!ctx.allow_network)),
        network_flag(true) != network_flag(false),
{
    lemma_fixed_flags_no_net();
    let hf = helper_flags(ctx, probe);
    let w1 = namespace_flags() + seq![network_flag(ctx.allow_network)];
    let w2 = w1 + rootfs_flags();
    let w3 = w2 + ro_bind_flags(probe.etc_binds);
    let w4 = w3 + dir_bind_flags(probe.extra_dirs);
    assert(hf == w4 + workspace_flags(ctx.root_path));
    assert(hf[5] == network_flag(ctx.allow_network)) by {
        assert(w1[5] == network_flag(ctx.allow_network));
        assert(w2[5] == w1[5]);
        assert(w3[5] == w2[5]);
        assert(w4[5] == w3[5]);
        assert(hf[5] == w4[5]);
    }
    assert(hf.contains(network_flag(ctx.allow_network)));
    let other = network_flag(!ctx.allow_network);
    assert(is_net_flag(other));
    lemma_ro_binds_no_net(probe.etc_binds);
    lemma_dir_binds_no_net(probe.extra_dirs);
    let ws = workspace_flags(ctx.root_path);
    assert(no_net_flags(ws)) by {
        assert forall|i: int| 0 <= i < ws.len() implies !is_net_flag(#[trigger] ws[i]) by {
            assert(ws[0] == "--bind"@);
            assert(ws[1] == ctx.root_path);
            assert(ws[2] == workspace_mount());
            assert(ws[3] == "--chdir"@);
            assert(ws[4] == workspace_mount());
            assert(ws[5] == "--cap-drop"@);
            assert(ws[6] == "ALL"@);
        }
    }
    assert forall|i: int| 0 <= i < hf.len() implies hf[i] != other by {
        if i < w4.len() {
            assert(hf[i] == w4[i]);
            if i < w3.len() {
                assert(w4[i] == w3[i]);
                if i < w2.len() {
                    assert(w3[i] == w2[i]);
                    if i < w1.len() {
                        assert(w2[i] == w1[i]);
                        if i < namespace_flags().len() {
                            assert(w1[i] == namespace_flags()[i]);
                        } else {
                            assert(w1[i] == network_flag(ctx.allow_network));
                        }
                    } else {
                        assert(w2[i] == rootfs_flags()[i - w1.len()]);
                    }
                } else {
                    assert(w3[i] == ro_bind_flags(probe.etc_binds)[i - w2.len()]);
                }
            } else {
                assert(w4[i] == dir_bind_flags(probe.extra_dirs)[i - w3.len()]);
            }
        } else {
            assert(hf[i] == ws[i - w4.len()]);
        }
    }
    if hf.contains(other) {
        let i = choose|i: int| 0 <= i < hf.len() && hf[i] == other;
        assert(hf[i] != other);
    }
}

} // verus!
