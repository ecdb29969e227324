//! Rerouting shell builtins through the command interpreter.
//!
//! On the platform whose shell builtins are not standalone executables, a
//! fixed list of program names (and batch-script suffixes) cannot be spawned
//! directly; such a program is run as `cmd /c <program> <args...>` instead,
//! with the original program name passed through. All name matching is
//! ASCII-case-insensitive.

use vstd::prelude::*;

use crate::command::{append_args, push_arg, push_arg_string};
use crate::text::{has_suffix_ci, str_ci_eq, str_eq_ci, str_equal, suffix_ci};

verus! {

/// The program name is one of the interpreter's builtins.
pub open spec fn interpreter_builtin(cmd: Seq<char>) -> bool {
    ||| str_ci_eq(cmd, "echo"@)
    ||| str_ci_eq(cmd, "dir"@)
    ||| str_ci_eq(cmd, "del"@)
    ||| str_ci_eq(cmd, "copy"@)
    ||| str_ci_eq(cmd, "move"@)
    ||| str_ci_eq(cmd, "mkdir"@)
    ||| str_ci_eq(cmd, "rmdir"@)
    ||| str_ci_eq(cmd, "type"@)
    ||| str_ci_eq(cmd, "cls"@)
    ||| str_ci_eq(cmd, "ping"@)
}

/// The program name carries a batch-script suffix.
pub open spec fn batch_script(cmd: Seq<char>) -> bool {
    suffix_ci(cmd, ".bat"@) || suffix_ci(cmd, ".cmd"@)
}

/// The program must be run through the command interpreter.
pub open spec fn needs_interpreter(cmd: Seq<char>) -> bool {
    interpreter_builtin(cmd) || batch_script(cmd)
}

/// Decides `needs_interpreter` for a concrete program name.
pub fn check_needs_interpreter(cmd: &str) -> (r: bool)
    ensures
        r == needs_interpreter(cmd@),
{
    str_eq_ci(cmd, "echo") || str_eq_ci(cmd, "dir") || str_eq_ci(cmd, "del") || str_eq_ci(
        cmd,
        "copy",
    ) || str_eq_ci(cmd, "move") || str_eq_ci(cmd, "mkdir") || str_eq_ci(cmd, "rmdir") || str_eq_ci(
        cmd,
        "type",
    ) || str_eq_ci(cmd, "cls") || str_eq_ci(cmd, "ping") || has_suffix_ci(cmd, ".bat")
        || has_suffix_ci(cmd, ".cmd")
}

/// The program the built command runs: the interpreter when rerouting, the
/// interpreter's own name untouched, and otherwise the path executable
/// lookup found (the requested name when the lookup found nothing, leaving
/// the failure to spawn time, as standard process creation would).
pub open spec fn routed_program(
    cmd: Seq<char>,
    resolved: Option<Seq<char>>,
    reroute: bool,
) -> Seq<char> {
    if reroute {
        "cmd"@
    } else if cmd == "cmd"@ {
        cmd
    } else {
        match resolved {
            Some(p) => p,
            None => cmd,
        }
    }
}

/// The argument vector: rerouting prepends the interpreter's
/// run-one-command flag and the original program name.
pub open spec fn routed_args(cmd: Seq<char>, args: Seq<Seq<char>>, reroute: bool) -> Seq<
    Seq<char>,
> {
    if reroute {
        seq!["/c"@, cmd] + args
    } else {
        args
    }
}

/// Resolves the program and argument vector for a direct (host-style)
/// invocation, rerouting builtins through the interpreter when
/// `interpreter_host` says the host needs it.
pub fn route_command(
    cmd: &String,
    args: &Vec<String>,
    resolved: &Option<String>,
    interpreter_host: bool,
) -> (r: (String, Vec<String>))
    ensures
        r.0@ == routed_program(
            cmd@,
            resolved.deep_view(),
            interpreter_host && needs_interpreter(cmd@),
        ),
        r.1.deep_view() == routed_args(
            cmd@,
            args.deep_view(),
            interpreter_host && needs_interpreter(cmd@),
        ),
{
    let reroute = interpreter_host && check_needs_interpreter(cmd.as_str());
    if reroute {
        let mut routed: Vec<String> = Vec::new();
        push_arg(&mut routed, "/c");
        push_arg_string(&mut routed, cmd.clone());
        append_args(&mut routed, args);
        proof {
            assert(routed.deep_view() =~= seq!["/c"@, cmd@] + args.deep_view());
        }
        (String::from_str("cmd"), routed)
    } else {
        let program = if str_equal(cmd.as_str(), "cmd") {
            cmd.clone()
        } else {
            match resolved {
                Some(p) => p.clone(),
                None => cmd.clone(),
            }
        };
        let mut routed: Vec<String> = Vec::new();
        append_args(&mut routed, args);
        proof {
            assert(routed.deep_view() =~= args.deep_view());
        }
        (program, routed)
    }
}

} // verus!
