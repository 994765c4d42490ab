//! Execution-strategy selection and command-line construction: a pure
//! projection of the launch demands already computed on the resolved
//! executable, and the exact argument list handed to the operating system.

use vstd::prelude::*;
use crate::locate::ResolvedExecutable;

verus! {

/// The launch strategy: whether the child must run through the host-shell
/// wrapper, and whether its output must be relayed through captured pipes.
pub struct ExecutionPlan {
    pub use_shell_wrapper: bool,
    pub capture_streams: bool,
}

impl ExecutionPlan {
    /// Projects the two launch demands of the resolved executable.  This
    /// stands as its own seam so that wrapper and capture policy can evolve
    /// independently of path resolution.
    pub fn select(resolved: &ResolvedExecutable) -> (plan: ExecutionPlan)
        ensures
            plan.use_shell_wrapper == resolved.requires_shell_wrapper,
            plan.capture_streams == resolved.requires_stream_capture,
    {
        ExecutionPlan {
            use_shell_wrapper: resolved.requires_shell_wrapper,
            capture_streams: resolved.requires_stream_capture,
        }
    }
}

/// A fully built child invocation: the program to start and its argument
/// list, in order.
pub struct CommandLine {
    pub program: String,
    pub args: Vec<String>,
}

/// Builds the child invocation for the chosen strategy.
///
/// Through the shell wrapper, the host shell is started with its
/// run-one-command flag, then the target path — the translated path when the
/// path-translation collaborator produced one, and the original path verbatim
/// as the degraded fallback when it did not — then the passthrough arguments.
/// Without the wrapper, the resolved path is invoked directly with the
/// passthrough arguments.  Passthrough arguments are never reordered,
/// dropped, or altered.
pub fn build_command_line(
    plan: &ExecutionPlan,
    resolved: &ResolvedExecutable,
    translated: &Option<String>,
    passthrough: &Vec<String>,
) -> (c: CommandLine)
    ensures
        plan.use_shell_wrapper ==> ({
            &&& c.program@ == "cmd.exe"@
            &&& c.args@.len() == 2 + passthrough@.len()
            &&& c.args@[0]@ == "/c"@
            &&& (translated matches Some(t) ==> c.args@[1]@ == t@)
            &&& (translated is None ==> c.args@[1]@ == resolved.path@)
            &&& forall|i: int|
                0 <= i < passthrough@.len() ==> c.args@[2 + i]@ == passthrough@[i]@
        }),
        !plan.use_shell_wrapper ==> ({
            &&& c.program@ == resolved.path@
            &&& c.args@.len() == passthrough@.len()
            &&& forall|i: int| 0 <= i < passthrough@.len() ==> c.args@[i]@ == passthrough@[i]@
        }),
{
    let mut args: Vec<String> = Vec::new();
    let program: String;
    if plan.use_shell_wrapper {
        program = "cmd.exe".to_owned();
        args.push("/c".to_owned());
        match translated {
            Some(t) => args.push(t.clone()),
            None => args.push(resolved.path.clone()),
        }
    } else {
        program = resolved.path.clone();
    }
    let offset = args.len();
    let mut i: usize = 0;
    while i < passthrough.len()
        invariant
            args@.len() == offset + i,
            i <= passthrough@.len(),
            offset == if plan.use_shell_wrapper {
                2int
            } else {
                0int
            },
            plan.use_shell_wrapper ==> args@[0]@ == "/c"@,
            plan.use_shell_wrapper ==> (translated matches Some(t) ==> args@[1]@ == t@),
            plan.use_shell_wrapper ==> (translated is None ==> args@[1]@ == resolved.path@),
            forall|k: int| 0 <= k < i ==> args@[offset + k]@ == passthrough@[k]@,
        decreases passthrough@.len() - i,
    {
        args.push(passthrough[i].clone());
        i = i + 1;
    }
    CommandLine { program, args }
}

} // verus!
