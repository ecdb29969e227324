//! The built command: a fully specified OS process invocation, produced by an
//! isolation strategy and consumed by the caller that actually spawns it.
//!
//! The environment of a built command is an ordered list of `KEY=VALUE`
//! entries applied in order, so a later entry for a key overrides an earlier
//! one. `env_value_of` gives the value that survives this layering.

use vstd::prelude::*;

verus! {

/// How one standard stream of the child process is wired up.
#[derive(Clone, Copy, PartialEq, Eq, Structural, Debug)]
pub enum StdioMode {
    /// The stream is connected to the null device.
    Null,
    /// The stream is captured through a pipe readable by the launcher.
    Piped,
}

/// A ready-to-spawn process invocation.
///
/// Every strategy yields a command with `stdin == Null`,
/// `stdout == Piped` and `stderr == Piped`, so the launcher can bridge the
/// child's output; this is a strict postcondition of command construction.
#[derive(Debug, PartialEq, Clone)]
pub struct BuiltCommand {
    /// Program to execute.
    pub program: String,
    /// Argument vector, not counting the program itself.
    pub args: Vec<String>,
    /// Whether the inherited environment is cleared before `env` is applied.
    pub clear_env: bool,
    /// Environment entries, applied in order (a later entry wins).
    pub env: Vec<(String, String)>,
    /// Working directory of the child.
    pub cwd: String,
    /// Wiring of the child's standard input.
    pub stdin: StdioMode,
    /// Wiring of the child's standard output.
    pub stdout: StdioMode,
    /// Wiring of the child's standard error.
    pub stderr: StdioMode,
}

/// The mathematical value of a `BuiltCommand`.
#[verifier::ext_equal]
pub struct CommandModel {
    pub program: Seq<char>,
    pub args: Seq<Seq<char>>,
    pub clear_env: bool,
    pub env: Seq<(Seq<char>, Seq<char>)>,
    pub cwd: Seq<char>,
    pub stdin: StdioMode,
    pub stdout: StdioMode,
    pub stderr: StdioMode,
}

impl View for BuiltCommand {
    type V = CommandModel;

    open spec fn view(&self) -> CommandModel {
        CommandModel {
            program: self.program@,
            args: self.args.deep_view(),
            clear_env: self.clear_env,
            env: self.env.deep_view(),
            cwd: self.cwd@,
            stdin: self.stdin,
            stdout: self.stdout,
            stderr: self.stderr,
        }
    }
}

/// The value an environment entry list assigns to `key`: the value of the
/// last entry for `key`, or `None` when no entry names it.
pub open spec fn env_value_of(env: Seq<(Seq<char>, Seq<char>)>, key: Seq<char>) -> Option<
    Seq<char>,
>
    decreases env.len(),
{
    if env.len() == 0 {
        None
    } else if env.last().0 == key {
        Some(env.last().1)
    } else {
        env_value_of(env.drop_last(), key)
    }
}

/// No two entries name the same key.
pub open spec fn unique_keys(env: Seq<(Seq<char>, Seq<char>)>) -> bool {
    forall|i: int, j: int|
        0 <= i < j < env.len() ==> (#[trigger] env[i]).0 != (#[trigger] env[j]).0
}

/// The environment the spawned child finally sees: the inherited environment
/// of the spawning process unless the command clears it, then the command's
/// own entries layered on top.
pub open spec fn effective_env(
    c: CommandModel,
    inherited: Seq<(Seq<char>, Seq<char>)>,
) -> Seq<(Seq<char>, Seq<char>)> {
    if c.clear_env {
        c.env
    } else {
        inherited + c.env
    }
}

/// Looking up a key after one more entry: the new entry answers for its own
/// key and leaves every other key to the entries before it.
pub proof fn lemma_env_value_push(
    env: Seq<(Seq<char>, Seq<char>)>,
    entry: (Seq<char>, Seq<char>),
    key: Seq<char>,
)
    ensures
        env_value_of(env.push(entry), key) == (if entry.0 == key {
            Some(entry.1)
        } else {
            env_value_of(env, key)
        }),
{
    assert(env.push(entry).drop_last() =~= env);
    assert(env.push(entry).last() == entry);
}

/// Layering distributes over concatenation: the later part is consulted
/// first, and the earlier part only when the later one is silent.
pub proof fn lemma_env_value_append(
    a: Seq<(Seq<char>, Seq<char>)>,
    b: Seq<(Seq<char>, Seq<char>)>,
    key: Seq<char>,
)
    ensures
        env_value_of(a + b, key) == (if env_value_of(b, key) is Some {
            env_value_of(b, key)
        } else {
            env_value_of(a, key)
        }),
    decreases b.len(),
{
    if b.len() == 0 {
        assert(a + b =~= a);
    } else {
        assert((a + b).drop_last() =~= a + b.drop_last());
        lemma_env_value_append(a, b.drop_last(), key);
    }
}

/// In a list with unique keys, the entry `(key, v)` decides the lookup.
pub proof fn lemma_env_value_unique(
    env: Seq<(Seq<char>, Seq<char>)>,
    key: Seq<char>,
    v: Seq<char>,
)
    requires
        unique_keys(env),
        env.contains((key, v)),
    ensures
        env_value_of(env, key) == Some(v),
    decreases env.len(),
{
    let i = choose|i: int| 0 <= i < env.len() && env[i] == (key, v);
    if i == env.len() - 1 {
        assert(env.last().0 == key);
    } else {
        assert(env[i].0 == env.last().0 ==> false);
        assert(env.drop_last().contains((key, v))) by {
            assert(env.drop_last()[i] == (key, v));
        }
        lemma_env_value_unique(env.drop_last(), key, v);
    }
}

/// An explicit entry always wins over anything layered below it: whatever the
/// base environment holds for `key`, appending override entries with unique
/// keys makes the lookup return the override's value.
pub proof fn lemma_overrides_win(
    base: Seq<(Seq<char>, Seq<char>)>,
    overrides: Seq<(Seq<char>, Seq<char>)>,
    key: Seq<char>,
    v: Seq<char>,
)
    requires
        unique_keys(overrides),
        overrides.contains((key, v)),
    ensures
        env_value_of(base + overrides, key) == Some(v),
{
    lemma_env_value_unique(overrides, key, v);
    lemma_env_value_append(base, overrides, key);
}

proof fn lemma_take_push<A>(a: Seq<A>, b: Seq<A>, i: int)
    requires
        0 <= i < b.len(),
    ensures
        (a + b.take(i)).push(b[i]) == a + b.take(i + 1),
{
    assert((a + b.take(i)).push(b[i]) =~= a + b.take(i + 1));
}

/// Appends one argument given as a string slice.
pub fn push_arg(v: &mut Vec<String>, s: &str)
    ensures
        final(v).deep_view() == old(v).deep_view().push(s@),
{
    v.push(s.to_owned());
    proof {
        assert(v.deep_view() =~= old(v).deep_view().push(s@));
    }
}

/// Appends one owned argument.
pub fn push_arg_string(v: &mut Vec<String>, s: String)
    ensures
        final(v).deep_view() == old(v).deep_view().push(s@),
{
    v.push(s);
    proof {
        assert(v.deep_view() =~= old(v).deep_view().push(s@));
    }
}

/// Appends copies of all arguments in `src`.
pub fn append_args(dst: &mut Vec<String>, src: &Vec<String>)
    ensures
        final(dst).deep_view() == old(dst).deep_view() + src.deep_view(),
{
    let mut i: usize = 0;
    while i < src.len()
        invariant
            i <= src.len(),
            dst.deep_view() == old(dst).deep_view() + src.deep_view().take(i as int),
        decreases src.len() - i,
    {
        let s = src[i].clone();
        proof {
            assert(s@ == src.deep_view()[i as int]);
        }
        let ghost pre = dst.deep_view();
        dst.push(s);
        proof {
            assert(dst.deep_view() =~= pre.push(src.deep_view()[i as int]));
            lemma_take_push(old(dst).deep_view(), src.deep_view(), i as int);
        }
        i += 1;
    }
    proof {
        assert(src.deep_view().take(src.len() as int) =~= src.deep_view());
    }
}

/// Appends one environment entry given as string slices.
pub fn push_env(v: &mut Vec<(String, String)>, key: &str, value: &str)
    ensures
        final(v).deep_view() == old(v).deep_view().push((key@, value@)),
{
    v.push((key.to_owned(), value.to_owned()));
    proof {
        assert(v.deep_view() =~= old(v).deep_view().push((key@, value@)));
    }
}

/// Appends one environment entry with an owned value.
pub fn push_env_string(v: &mut Vec<(String, String)>, key: &str, value: String)
    ensures
        final(v).deep_view() == old(v).deep_view().push((key@, value@)),
{
    v.push((key.to_owned(), value));
    proof {
        assert(v.deep_view() =~= old(v).deep_view().push((key@, value@)));
    }
}

/// Appends copies of all environment entries in `src`.
pub fn append_env(dst: &mut Vec<(String, String)>, src: &Vec<(String, String)>)
    ensures
        final(dst).deep_view() == old(dst).deep_view() + src.deep_view(),
{
    let mut i: usize = 0;
    while i < src.len()
        invariant
            i <= src.len(),
            dst.deep_view() == old(dst).deep_view() + src.deep_view().take(i as int),
        decreases src.len() - i,
    {
        let k = src[i].0.clone();
        let v = src[i].1.clone();
        proof {
            assert((k@, v@) == src.deep_view()[i as int]);
        }
        let ghost pre = dst.deep_view();
        dst.push((k, v));
        proof {
            assert(dst.deep_view() =~= pre.push(src.deep_view()[i as int]));
            lemma_take_push(old(dst).deep_view(), src.deep_view(), i as int);
        }
        i += 1;
    }
    proof {
        assert(src.deep_view().take(src.len() as int) =~= src.deep_view());
    }
}

/// Looks up `key` in an entry list, honouring the later-entry-wins rule.
pub fn env_get(env: &Vec<(String, String)>, key: &str) -> (r: Option<String>)
    ensures
        match r {
            Some(v) => env_value_of(env.deep_view(), key@) == Some(v@),
            None => env_value_of(env.deep_view(), key@) is None,
        },
{
    let mut best: Option<String> = None;
    let mut i: usize = 0;
    while i < env.len()
        invariant
            i <= env.len(),
            match best {
                Some(v) => env_value_of(env.deep_view().take(i as int), key@) == Some(v@),
                None => env_value_of(env.deep_view().take(i as int), key@) is None,
            },
        decreases env.len() - i,
    {
        if crate::text::str_equal(env[i].0.as_str(), key) {
            best = Some(env[i].1.clone());
        }
        proof {
            assert(env.deep_view().take(i + 1) =~= env.deep_view().take(i as int).push(
                env.deep_view()[i as int],
            ));
            lemma_env_value_push(env.deep_view().take(i as int), env.deep_view()[i as int], key@);
        }
        i += 1;
    }
    proof {
        assert(env.deep_view().take(env.len() as int) =~= env.deep_view());
    }
    best
}

} // verus!
