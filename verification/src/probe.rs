//! Facts about the host that command construction depends on: the platform
//! family, a snapshot of the launcher's own environment, and the outcome of
//! the host-side lookups (executables, bindable configuration paths).
//!
//! Observing the host is separated from building the command so that command
//! construction itself is a pure function of a context and a probe.

use vstd::prelude::*;

verus! {

/// The family of operating system the launcher runs on.
#[derive(Clone, Copy, PartialEq, Eq, Structural, Debug)]
pub enum Platform {
    Linux,
    MacOs,
    Windows,
    /// Any platform without a dedicated isolation strategy.
    Other,
}

/// A snapshot of everything the isolation strategies read from the host.
#[derive(Debug, Clone)]
pub struct HostProbe {
    /// The platform family of this host.
    pub platform: Platform,
    /// The launcher's own environment at probe time, in iteration order.
    pub env: Vec<(String, String)>,
    /// Where the requested program was found by executable lookup, if it was.
    pub resolved_cmd: Option<String>,
    /// Where the namespace-sandboxing helper (`bwrap`) was found, if it was.
    pub bwrap_path: Option<String>,
    /// Whether the profile-sandboxing helper (`sandbox-exec`) is present.
    pub sandbox_exec_present: bool,
    /// Host configuration paths to bind read-only into a namespace sandbox:
    /// each entry is `(source, destination)`, the source already resolved to
    /// its real target so a dangling symlink is never bound.
    pub etc_binds: Vec<(String, String)>,
    /// Directories outside `/usr` that exist on this host and should be
    /// visible read-only inside a namespace sandbox (toolchain roots).
    pub extra_dirs: Vec<String>,
}

/// The mathematical value of a `HostProbe`.
#[verifier::ext_equal]
pub struct ProbeModel {
    pub platform: Platform,
    pub env: Seq<(Seq<char>, Seq<char>)>,
    pub resolved_cmd: Option<Seq<char>>,
    pub bwrap_path: Option<Seq<char>>,
    pub sandbox_exec_present: bool,
    pub etc_binds: Seq<(Seq<char>, Seq<char>)>,
    pub extra_dirs: Seq<Seq<char>>,
}

impl View for HostProbe {
    type V = ProbeModel;

    open spec fn view(&self) -> ProbeModel {
        ProbeModel {
            platform: self.platform,
            env: self.env.deep_view(),
            resolved_cmd: self.resolved_cmd.deep_view(),
            bwrap_path: self.bwrap_path.deep_view(),
            sandbox_exec_present: self.sandbox_exec_present,
            etc_binds: self.etc_binds.deep_view(),
            extra_dirs: self.extra_dirs.deep_view(),
        }
    }
}

impl ProbeModel {
    /// Every path recorded in the probe is absolute. The binding flags of a
    /// namespace sandbox are only ever built from absolute paths, which keeps
    /// them apart from the helper's own `--`-prefixed flags.
    pub open spec fn paths_absolute(&self) -> bool {
        &&& forall|i: int|
            0 <= i < self.etc_binds.len() ==> (#[trigger] self.etc_binds[i]).0.len() > 0
                && self.etc_binds[i].0[0] == '/' && self.etc_binds[i].1.len() > 0
                && self.etc_binds[i].1[0] == '/'
        &&& forall|i: int|
            0 <= i < self.extra_dirs.len() ==> (#[trigger] self.extra_dirs[i]).len() > 0
                && self.extra_dirs[i][0] == '/'
    }
}

/// Relies on `which::which`: searches the executable search path for a
/// binary with the given name and returns the full path of the one found.
/// The outcome depends on the host's disks and search path, so nothing more
/// is assumed than that a found executable has a nonempty path.
#[verifier::external_body]
fn find_executable(name: &str) -> (r: Option<String>)
    ensures
        r matches Some(p) ==> p@.len() > 0,
{
    match which::which(name) {
        Ok(p) => Some(p.to_string_lossy().into_owned()),
        Err(_) => None,
    }
}

impl HostProbe {
    /// Assembles a probe: takes the facts only the caller can observe
    /// (platform, environment snapshot, bindable paths, presence of the
    /// profile-sandboxing helper) and performs the executable lookups for
    /// the requested program and, on Linux, for the namespace-sandboxing
    /// helper.
    pub fn detect(
        platform: Platform,
        env: Vec<(String, String)>,
        etc_binds: Vec<(String, String)>,
        extra_dirs: Vec<String>,
        sandbox_exec_present: bool,
        cmd: &str,
    ) -> (p: HostProbe)
        ensures
            p@.platform == platform,
            p@.env == env.deep_view(),
            p@.etc_binds == etc_binds.deep_view(),
            p@.extra_dirs == extra_dirs.deep_view(),
            p@.sandbox_exec_present == sandbox_exec_present,
            platform != Platform::Linux ==> p@.bwrap_path is None,
    {
        let bwrap_path = if platform == Platform::Linux {
            find_executable("bwrap")
        } else {
            None
        };
        HostProbe {
            platform,
            env,
            resolved_cmd: find_executable(cmd),
            bwrap_path,
            sandbox_exec_present,
            etc_binds,
            extra_dirs,
        }
    }
}

} // verus!
