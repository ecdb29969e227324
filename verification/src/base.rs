//! The execution context handed to the isolation strategies, and the
//! capability those strategies implement.

use vstd::prelude::*;

use crate::command::{BuiltCommand, StdioMode};
use crate::errors::LaunchError;
use crate::probe::{HostProbe, ProbeModel};

verus! {

use crate::command::unique_keys;

/// Immutable description of what to run and under what constraints.
///
/// A context is created once per invocation and never mutated afterwards;
/// strategies read it and clone values into the command they build.
#[derive(Debug, Clone)]
pub struct ExecutionContext {
    /// Opaque identifier correlating logs; never interpreted.
    pub id: String,
    /// Absolute path of the workspace root: the default working directory
    /// and, on sandboxed platforms, the directory kept writable inside the
    /// isolated environment.
    pub root_path: String,
    /// The program to execute; must be nonempty.
    pub cmd: String,
    /// Arguments for the program.
    pub args: Vec<String>,
    /// Environment entries injected into the built command after any
    /// platform baseline; keys are unique.
    pub env_vars: Vec<(String, String)>,
    /// Optional override of the working directory; `root_path` when absent.
    pub cwd: Option<String>,
    /// Whether the sandbox may reach the network. Enforcement differs per
    /// strategy: kernel-enforced on Linux, profile-enforced on macOS, and
    /// best-effort on Windows.
    pub allow_network: bool,
}

/// The mathematical value of an `ExecutionContext`.
#[verifier::ext_equal]
pub struct ContextModel {
    pub id: Seq<char>,
    pub root_path: Seq<char>,
    pub cmd: Seq<char>,
    pub args: Seq<Seq<char>>,
    pub env_vars: Seq<(Seq<char>, Seq<char>)>,
    pub cwd: Option<Seq<char>>,
    pub allow_network: bool,
}

impl View for ExecutionContext {
    type V = ContextModel;

    open spec fn view(&self) -> ContextModel {
        ContextModel {
            id: self.id@,
            root_path: self.root_path@,
            cmd: self.cmd@,
            args: self.args.deep_view(),
            env_vars: self.env_vars.deep_view(),
            cwd: self.cwd.deep_view(),
            allow_network: self.allow_network,
        }
    }
}

impl ContextModel {
    /// What every strategy may assume of a context: a program is named, the
    /// workspace root is a nonempty path, and the environment overrides
    /// name each key once.
    pub open spec fn wf(&self) -> bool {
        &&& self.cmd.len() > 0
        &&& self.root_path.len() > 0
        &&& unique_keys(self.env_vars)
        &&& match self.cwd {
            Some(c) => c.len() > 0,
            None => true,
        }
    }

    /// The working directory the built command must use: the explicit
    /// override when one is given, the workspace root otherwise.
    pub open spec fn work_dir(&self) -> Seq<char> {
        match self.cwd {
            Some(c) => c,
            None => self.root_path,
        }
    }
}

/// The capability every platform-specific isolation strategy provides:
/// build a ready-to-spawn command from a context and a host probe, without
/// spawning anything.
pub trait IsolationStrategy: Sized {
    /// The exact relation between the inputs and the strategy's result.
    /// Each strategy reveals here precisely which command it builds and on
    /// which hosts it fails instead.
    spec fn builds(
        &self,
        ctx: ContextModel,
        probe: ProbeModel,
        r: Result<BuiltCommand, LaunchError>,
    ) -> bool;

    /// Builds the OS-level invocation for the context. Never spawns. The
    /// built command always has stdin closed and both output streams
    /// captured, and the only error a strategy raises is `ToolMissing`,
    /// when a required host-side sandboxing binary is absent; a strategy
    /// never silently degrades to a weaker isolation.
    fn build_command(&self, ctx: &ExecutionContext, probe: &HostProbe) -> (r: Result<
        BuiltCommand,
        LaunchError,
    >)
        requires
            ctx@.wf(),
        ensures
            self.builds(ctx@, probe@, r),
            r matches Ok(c) ==> c@.stdin == StdioMode::Null && c@.stdout == StdioMode::Piped
                && c@.stderr == StdioMode::Piped && c@.cwd.len() > 0,
            r matches Err(e) ==> e is ToolMissing,
    ;

    /// The display name of the strategy, for diagnostics.
    fn name(&self) -> &'static str;
}

/// The text holds an `=` sign somewhere.
pub open spec fn has_eq_sign(s: Seq<char>) -> bool {
    exists|i: int| 0 <= i < s.len() && s[i] == '='
}

/// The position of the first `=` sign (the length of the text when there is
/// none).
pub open spec fn first_eq_sign(s: Seq<char>) -> int
    decreases s.len(),
{
    if s.len() == 0 {
        0
    } else if s[0] == '=' {
        0
    } else {
        1 + first_eq_sign(s.drop_first())
    }
}

proof fn lemma_first_eq_sign(s: Seq<char>, i: int)
    requires
        0 <= i < s.len(),
        s[i] == '=',
        forall|j: int| 0 <= j < i ==> s[j] != '=',
    ensures
        first_eq_sign(s) == i,
        has_eq_sign(s),
    decreases i,
{
    if i > 0 {
        assert(s.drop_first()[i - 1] == s[i]);
        assert forall|j: int| 0 <= j < i - 1 implies s.drop_first()[j] != '=' by {
            assert(s.drop_first()[j] == s[j + 1]);
        }
        lemma_first_eq_sign(s.drop_first(), i - 1);
    }
}

/// Splits one `KEY=value` parameter at its first `=` sign: everything before
/// it is the key, everything after it the value. A parameter without an `=`
/// sign is a configuration error, reported as a message naming the malformed
/// text.
pub fn parse_key_val(s: &str) -> (r: Result<(String, String), String>)
    ensures
        has_eq_sign(s@) ==> (r matches Ok(kv) && kv.0@ == s@.take(first_eq_sign(s@)) && kv.1@
            == s@.skip(first_eq_sign(s@) + 1)),
        !has_eq_sign(s@) ==> (r matches Err(m) && m@
            == "Invalid KEY=value format: no '=' found in `"@ + s@ + "`"@),
{
    let n = s.unicode_len();
    let mut i: usize = 0;
    while i < n
        invariant
            i <= n,
            n == s@.len(),
            forall|j: int| 0 <= j < i ==> s@[j] != '=',
        decreases n - i,
    {
        if s.get_char(i) == '=' {
            proof {
                lemma_first_eq_sign(s@, i as int);
            }
            let key = s.substring_char(0, i);
            let value = s.substring_char(i + 1, n);
            return Ok((key.to_owned(), value.to_owned()));
        }
        i += 1;
    }
    Err(String::from_str("Invalid KEY=value format: no '=' found in `").concat(s).concat("`"))
}

} // verus!
