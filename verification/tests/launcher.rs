//! Tests of command construction, strategy selection and the run state
//! machine, on concrete contexts and host probes.

use workspace_launcher::base::{parse_key_val, ExecutionContext};
use workspace_launcher::base::IsolationStrategy;
use workspace_launcher::command::{env_get, BuiltCommand, StdioMode};
use workspace_launcher::engine::{
    exit_code_from, outcome, step, Engine, RunAction, RunEvent, RunPhase,
};
use workspace_launcher::errors::LaunchError;
use workspace_launcher::host::HostStrategy;
use workspace_launcher::linux::LinuxBwrapStrategy;
use workspace_launcher::macos::{seatbelt_profile_text, MacOsSandboxStrategy};
use workspace_launcher::probe::{HostProbe, Platform};
use workspace_launcher::windows::WindowsJobStrategy;

fn s(x: &str) -> String {
    x.to_string()
}

fn ctx(cmd: &str, args: &[&str]) -> ExecutionContext {
    ExecutionContext {
        id: s("run-1"),
        root_path: s("/ws"),
        cmd: s(cmd),
        args: args.iter().map(|a| s(a)).collect(),
        env_vars: Vec::new(),
        cwd: None,
        allow_network: true,
    }
}

fn probe(platform: Platform) -> HostProbe {
    HostProbe {
        platform,
        env: Vec::new(),
        resolved_cmd: None,
        bwrap_path: None,
        sandbox_exec_present: false,
        etc_binds: Vec::new(),
        extra_dirs: Vec::new(),
    }
}

fn args_of(c: &BuiltCommand) -> Vec<&str> {
    c.args.iter().map(|a| a.as_str()).collect()
}

#[test]
fn parse_key_val_splits_at_first_eq() {
    assert_eq!(parse_key_val("KEY=value"), Ok((s("KEY"), s("value"))));
    assert_eq!(parse_key_val("A=B=C"), Ok((s("A"), s("B=C"))));
    assert_eq!(parse_key_val("=v"), Ok((s(""), s("v"))));
    assert_eq!(parse_key_val("K="), Ok((s("K"), s(""))));
}

#[test]
fn parse_key_val_rejects_missing_eq() {
    assert_eq!(
        parse_key_val("NOEQ"),
        Err(s("Invalid KEY=value format: no '=' found in `NOEQ`"))
    );
}

#[test]
fn host_build_resolves_program() {
    let c = ctx("echo", &["hi"]);
    let mut p = probe(Platform::Linux);
    p.resolved_cmd = Some(s("/usr/bin/echo"));
    let built = HostStrategy.build_command(&c, &p).unwrap();
    assert_eq!(built.program, s("/usr/bin/echo"));
    assert_eq!(args_of(&built), vec!["hi"]);
    assert_eq!(built.stdin, StdioMode::Null);
    assert_eq!(built.stdout, StdioMode::Piped);
    assert_eq!(built.stderr, StdioMode::Piped);
    assert!(!built.clear_env);
    assert_eq!(built.cwd, s("/ws"));
}

#[test]
fn host_build_falls_back_to_requested_name() {
    let c = ctx("echo", &[]);
    let built = HostStrategy.build_command(&c, &probe(Platform::Linux)).unwrap();
    assert_eq!(built.program, s("echo"));
}

#[test]
fn host_reroutes_builtin_on_interpreter_host() {
    let c = ctx("ECHO", &["x"]);
    let mut p = probe(Platform::Windows);
    p.resolved_cmd = Some(s("C:\\nowhere\\echo.exe"));
    let built = HostStrategy.build_command(&c, &p).unwrap();
    assert_eq!(built.program, s("cmd"));
    assert_eq!(args_of(&built), vec!["/c", "ECHO", "x"]);
}

#[test]
fn host_does_not_reroute_on_other_platforms() {
    let c = ctx("echo", &["x"]);
    let built = HostStrategy.build_command(&c, &probe(Platform::MacOs)).unwrap();
    assert_eq!(built.program, s("echo"));
    assert_eq!(args_of(&built), vec!["x"]);
}

#[test]
fn host_keeps_interpreter_name_unresolved() {
    let c = ctx("cmd", &["/c", "dir"]);
    let mut p = probe(Platform::Windows);
    p.resolved_cmd = Some(s("C:\\Windows\\system32\\cmd.exe"));
    let built = HostStrategy.build_command(&c, &p).unwrap();
    assert_eq!(built.program, s("cmd"));
    assert_eq!(args_of(&built), vec!["/c", "dir"]);
}

#[test]
fn host_env_is_additive_and_overrides_win() {
    let mut c = ctx("echo", &[]);
    c.env_vars = vec![(s("FOO"), s("bar")), (s("PATH"), s("/custom"))];
    let built = HostStrategy.build_command(&c, &probe(Platform::Linux)).unwrap();
    assert!(!built.clear_env);
    assert_eq!(built.env, vec![(s("FOO"), s("bar")), (s("PATH"), s("/custom"))]);
    assert_eq!(env_get(&built.env, "PATH"), Some(s("/custom")));
}

#[test]
fn host_cwd_override() {
    let mut c = ctx("echo", &[]);
    c.cwd = Some(s("/elsewhere"));
    let built = HostStrategy.build_command(&c, &probe(Platform::Linux)).unwrap();
    assert_eq!(built.cwd, s("/elsewhere"));
}

#[test]
fn seatbelt_fails_without_helper() {
    let c = ctx("echo", &["hi"]);
    let r = MacOsSandboxStrategy.build_command(&c, &probe(Platform::MacOs));
    assert_eq!(
        r,
        Err(LaunchError::ToolMissing(s("sandbox-exec not found on this system")))
    );
}

#[test]
fn seatbelt_profile_text_exact() {
    let text = seatbelt_profile_text("/ws", "/home/u", true);
    let expected = "(version 1)\n(allow default)\n\n(deny file-write* (subpath \"/\"))\n\n(allow file-write*\n    (subpath \"/ws\")\n    (subpath \"/private/var/folders\")\n    (subpath \"/tmp\")\n    (subpath \"/var/tmp\")\n    (subpath \"/Users/Shared\")\n    (subpath \"/home/u/.m2\")\n    (subpath \"/home/u/.gradle\")\n    (subpath \"/home/u/.dart_tool\")\n)\n\n(allow network*)\n\n(allow process-exec)\n(allow process-fork)\n(allow mach-lookup)\n";
    assert_eq!(text, expected);
}

#[test]
fn seatbelt_profile_denies_network_by_policy() {
    let text = seatbelt_profile_text("/ws", "/home/u", false);
    assert!(text.contains("(deny network*)"));
    assert!(!text.contains("(allow network*)"));
}

#[test]
fn seatbelt_command_shape() {
    let mut c = ctx("swift", &["build"]);
    c.allow_network = false;
    c.env_vars = vec![(s("CI"), s("1"))];
    let mut p = probe(Platform::MacOs);
    p.sandbox_exec_present = true;
    p.env = vec![(s("HOME"), s("/Users/u")), (s("PATH"), s("/usr/bin"))];
    let built = MacOsSandboxStrategy.build_command(&c, &p).unwrap();
    assert_eq!(built.program, s("/usr/bin/sandbox-exec"));
    assert_eq!(built.args[0], s("-p"));
    assert_eq!(built.args[1], seatbelt_profile_text("/ws", "/Users/u", false));
    assert_eq!(built.args[2], s("swift"));
    assert_eq!(built.args[3], s("build"));
    assert!(built.clear_env);
    assert_eq!(
        built.env,
        vec![
            (s("HOME"), s("/Users/u")),
            (s("PATH"), s("/usr/bin")),
            (s("CI"), s("1")),
        ]
    );
}

#[test]
fn bwrap_fails_without_helper() {
    let c = ctx("ls", &[]);
    let r = LinuxBwrapStrategy.build_command(&c, &probe(Platform::Linux));
    assert_eq!(
        r,
        Err(LaunchError::ToolMissing(s(
            "bwrap not found. Install with: sudo apt install bubblewrap"
        )))
    );
}

fn linux_probe() -> HostProbe {
    let mut p = probe(Platform::Linux);
    p.bwrap_path = Some(s("/usr/bin/bwrap"));
    p.etc_binds = vec![(s("/etc/resolv.conf"), s("/etc/resolv.conf"))];
    p.extra_dirs = vec![s("/opt")];
    p
}

#[test]
fn bwrap_args_exact_without_network() {
    let mut c = ctx("ls", &["-l"]);
    c.allow_network = false;
    let built = LinuxBwrapStrategy.build_command(&c, &linux_probe()).unwrap();
    assert_eq!(built.program, s("/usr/bin/bwrap"));
    let expected = vec![
        "--die-with-parent",
        "--unshare-user",
        "--unshare-pid",
        "--unshare-ipc",
        "--unshare-uts",
        "--unshare-net",
        "--ro-bind",
        "/usr",
        "/usr",
        "--symlink",
        "usr/bin",
        "/bin",
        "--symlink",
        "usr/sbin",
        "/sbin",
        "--symlink",
        "usr/lib",
        "/lib",
        "--symlink",
        "usr/lib64",
        "/lib64",
        "--proc",
        "/proc",
        "--dev",
        "/dev",
        "--tmpfs",
        "/tmp",
        "--ro-bind",
        "/etc/resolv.conf",
        "/etc/resolv.conf",
        "--ro-bind",
        "/opt",
        "/opt",
        "--bind",
        "/ws",
        "/workspace",
        "--chdir",
        "/workspace",
        "--cap-drop",
        "ALL",
        "--",
        "ls",
        "-l",
    ];
    assert_eq!(args_of(&built), expected);
    assert!(!built.args.contains(&s("--share-net")));
}

#[test]
fn bwrap_shares_network_when_allowed() {
    let c = ctx("ls", &[]);
    let built = LinuxBwrapStrategy.build_command(&c, &linux_probe()).unwrap();
    assert!(built.args.contains(&s("--share-net")));
    assert!(!built.args.contains(&s("--unshare-net")));
}

#[test]
fn bwrap_env_overrides_forced_home() {
    let mut c = ctx("ls", &[]);
    c.env_vars = vec![(s("HOME"), s("/custom"))];
    let mut p = linux_probe();
    p.env = vec![(s("HOME"), s("/home/u")), (s("TERM"), s("vt100"))];
    let built = LinuxBwrapStrategy.build_command(&c, &p).unwrap();
    assert!(built.clear_env);
    assert_eq!(
        built.env,
        vec![
            (s("HOME"), s("/home/u")),
            (s("TERM"), s("vt100")),
            (s("HOME"), s("/workspace")),
            (s("TERM"), s("xterm-256color")),
            (s("HOME"), s("/custom")),
        ]
    );
    assert_eq!(env_get(&built.env, "HOME"), Some(s("/custom")));
    assert_eq!(env_get(&built.env, "TERM"), Some(s("xterm-256color")));
}

#[test]
fn windows_env_allowlist_and_proxy_deterrent() {
    let mut c = ctx("curl", &[]);
    c.allow_network = false;
    c.env_vars = vec![(s("HTTP_PROXY"), s("http://corp:8080"))];
    let mut p = probe(Platform::Windows);
    p.env = vec![
        (s("SystemRoot"), s("C:\\Windows")),
        (s("HACK"), s("1")),
        (s("PATH"), s("C:\\bin")),
    ];
    let built = WindowsJobStrategy.build_command(&c, &p).unwrap();
    assert!(built.clear_env);
    assert_eq!(env_get(&built.env, "SystemRoot"), Some(s("C:\\Windows")));
    assert_eq!(env_get(&built.env, "PATH"), Some(s("C:\\bin")));
    assert_eq!(env_get(&built.env, "HACK"), None);
    assert_eq!(env_get(&built.env, "HTTPS_PROXY"), Some(s("http://0.0.0.0:0")));
    assert_eq!(env_get(&built.env, "ALL_PROXY"), Some(s("socks5://0.0.0.0:0")));
    assert_eq!(env_get(&built.env, "NO_PROXY"), Some(s("")));
    assert_eq!(env_get(&built.env, "HTTP_PROXY"), Some(s("http://corp:8080")));
}

#[test]
fn windows_no_proxy_entries_with_network() {
    let c = ctx("curl", &[]);
    let built = WindowsJobStrategy.build_command(&c, &probe(Platform::Windows)).unwrap();
    assert_eq!(env_get(&built.env, "HTTP_PROXY"), None);
    assert_eq!(env_get(&built.env, "HTTPS_PROXY"), None);
}

#[test]
fn windows_reroutes_batch_scripts() {
    let c = ctx("setup.BAT", &["-q"]);
    let built = WindowsJobStrategy.build_command(&c, &probe(Platform::Windows)).unwrap();
    assert_eq!(built.program, s("cmd"));
    assert_eq!(args_of(&built), vec!["/c", "setup.BAT", "-q"]);
}

#[test]
fn engine_selects_platform_strategy() {
    assert_eq!(Engine::new(Platform::Linux, true).name(), "Linux Bubblewrap");
    assert_eq!(
        Engine::new(Platform::MacOs, true).name(),
        "macOS Seatbelt (Read-Only Host)"
    );
    assert_eq!(
        Engine::new(Platform::Windows, true).name(),
        "Windows Job Object (Process Grouping)"
    );
    assert_eq!(Engine::new(Platform::Other, true).name(), "Host (No Isolation)");
    assert_eq!(Engine::new(Platform::Linux, false).name(), "Host (No Isolation)");
    assert_eq!(Engine::new(Platform::Windows, false).name(), "Host (No Isolation)");
}

#[test]
fn engine_reports_missing_tool_before_any_spawn() {
    let e = Engine::new(Platform::Linux, true);
    let r = e.build_command(&ctx("ls", &[]), &probe(Platform::Linux));
    assert!(matches!(r, Err(LaunchError::ToolMissing(_))));
}

#[test]
fn engine_builds_are_idempotent() {
    let e = Engine::new(Platform::Linux, true);
    let c = ctx("ls", &["-l"]);
    let p = linux_probe();
    let first = e.build_command(&c, &p).unwrap();
    let second = e.build_command(&c, &p).unwrap();
    assert_eq!(first, second);
}

#[test]
fn run_scenario_normal_completion() {
    let (phase, action) = step(RunPhase::Created, RunEvent::SpawnSucceeded);
    assert_eq!(phase, RunPhase::Running);
    assert_eq!(action, RunAction::StartBridging);
    let (phase, action) = step(phase, RunEvent::ChildExited(Some(0)));
    assert_eq!(phase, RunPhase::Completed(0));
    assert_eq!(action, RunAction::DrainOutputs);
    assert_eq!(outcome(phase), Ok(0));
}

#[test]
fn run_scenario_spawn_failure() {
    let (phase, action) = step(
        RunPhase::Created,
        RunEvent::SpawnRejected(s("No such file or directory")),
    );
    assert_eq!(
        phase,
        RunPhase::Failed(LaunchError::SpawnFailed(s("No such file or directory")))
    );
    assert_eq!(action, RunAction::ReportFailure);
    assert_eq!(
        outcome(phase),
        Err(LaunchError::SpawnFailed(s("No such file or directory")))
    );
}

#[test]
fn run_scenario_cancellation() {
    let (phase, action) = step(RunPhase::Running, RunEvent::TerminationRequested);
    assert_eq!(phase, RunPhase::Cancelled);
    assert_eq!(action, RunAction::KillChild);
    assert_eq!(outcome(phase), Ok(-1));
}

#[test]
fn run_scenario_wait_failure_kills_child() {
    let (phase, action) = step(RunPhase::Running, RunEvent::WaitRejected(s("interrupted")));
    assert_eq!(phase, RunPhase::Failed(LaunchError::WaitFailed(s("interrupted"))));
    assert_eq!(action, RunAction::KillChild);
}

#[test]
fn exit_code_sentinel_for_missing_status() {
    assert_eq!(exit_code_from(Some(3)), 3);
    assert_eq!(exit_code_from(Some(0)), 0);
    assert_eq!(exit_code_from(None), -1);
}

#[test]
fn error_messages() {
    assert_eq!(
        LaunchError::SpawnFailed(s("boom")).message(),
        s("Spawn failed: boom")
    );
    assert_eq!(
        LaunchError::WaitFailed(s("boom")).message(),
        s("Wait failed: boom")
    );
    assert_eq!(LaunchError::ToolMissing(s("gone")).message(), s("gone"));
}

#[test]
fn probe_detect_records_host_facts() {
    let p = HostProbe::detect(
        Platform::Linux,
        vec![(s("PATH"), s("/usr/bin"))],
        vec![(s("/etc/hosts"), s("/etc/hosts"))],
        vec![s("/opt")],
        false,
        "no_such_executable_anywhere_zz",
    );
    assert_eq!(p.platform, Platform::Linux);
    assert_eq!(p.env, vec![(s("PATH"), s("/usr/bin"))]);
    assert_eq!(p.etc_binds, vec![(s("/etc/hosts"), s("/etc/hosts"))]);
    assert_eq!(p.extra_dirs, vec![s("/opt")]);
    assert!(!p.sandbox_exec_present);
    assert_eq!(p.resolved_cmd, None);
    if let Some(found) = &p.bwrap_path {
        assert!(!found.is_empty());
    }
}

#[test]
fn probe_detect_resolves_present_executable() {
    let p = HostProbe::detect(Platform::Other, Vec::new(), Vec::new(), Vec::new(), false, "sh");
    match &p.resolved_cmd {
        Some(path) => assert!(!path.is_empty()),
        None => {}
    }
}
