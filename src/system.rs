//! Command lines to run and what became of a run, as plain values.
use vstd::prelude::*;
use vstd::string::*;
use crate::text::{chars_of, concat, string_of, trim, trim_chars};

verus! {

/// A program and its arguments.
#[derive(Debug, Clone)]
pub struct Invocation {
    pub program: String,
    pub args: Vec<String>,
}

impl Invocation {
    pub open spec fn arg_views(&self) -> Seq<Seq<char>> {
        self.args@.map_values(|a: String| a@)
    }
}

/// What running an invocation gave: it could not be started, or it ran and exited.
#[derive(Debug, Clone)]
pub enum RunOutcome {
    SpawnFailed(String),
    Exited { success: bool, stdout: String, stderr: String },
}

/// Arguments as a command line takes them: `sudo -n <cmd> ...` when elevated.
pub open spec fn elevated_args(cmd: Seq<char>, args: Seq<Seq<char>>, use_sudo: bool) -> (Seq<char>, Seq<Seq<char>>) {
    if use_sudo {
        ("sudo"@, seq!["-n"@, cmd] + args)
    } else {
        (cmd, args)
    }
}

/// The invocation of `cmd` with `args`, elevated non-interactively when `use_sudo`.
pub fn run(cmd: &str, args: Vec<String>, use_sudo: bool) -> (r: Invocation)
    ensures
        (r.program@, r.arg_views()) == elevated_args(cmd@, args@.map_values(|a: String| a@), use_sudo),
{
    if use_sudo {
        let mut all: Vec<String> = Vec::new();
        all.push(String::from_str("-n"));
        all.push(String::from_str(cmd));
        let mut i: usize = 0;
        while i < args.len()
            invariant
                i <= args@.len(),
                all@.len() == i + 2,
                all@[0]@ == "-n"@,
                all@[1]@ == cmd@,
                forall|k: int| 2 <= k < i + 2 ==> (#[trigger] all@[k])@ == args@[k - 2]@,
            decreases args@.len() - i,
        {
            all.push(args[i].clone());
            i = i + 1;
        }
        let r = Invocation { program: String::from_str("sudo"), args: all };
        assert(r.arg_views() =~= seq!["-n"@, cmd@] + args@.map_values(|a: String| a@));
        r
    } else {
        Invocation { program: String::from_str(cmd), args }
    }
}

/// The text a command printed, or why it failed: `cmd` could not be started, or it
/// exited unsuccessfully with the given error output.
pub fn run_string(cmd: &str, outcome: RunOutcome) -> (r: Result<String, String>)
    ensures
        outcome matches RunOutcome::SpawnFailed(e) ==> r is Err && r->Err_0@ == "Failed to run "@
            + cmd@ + ": "@ + e@,
        outcome matches RunOutcome::Exited { success, stdout, stderr } ==> (success ==> r is Ok
            && r->Ok_0 == stdout) && (!success ==> r is Err && r->Err_0@ == cmd@ + " failed: "@
            + trim(stderr@)),
{
    match outcome {
        RunOutcome::SpawnFailed(e) => {
            let a = concat("Failed to run ", cmd);
            let b = concat(a.as_str(), ": ");
            Err(concat(b.as_str(), e.as_str()))
        },
        RunOutcome::Exited { success, stdout, stderr } => {
            if success {
                Ok(stdout)
            } else {
                let a = concat(cmd, " failed: ");
                let t = string_of(&trim_chars(&chars_of(stderr.as_str())));
                Err(concat(a.as_str(), t.as_str()))
            }
        },
    }
}

} // verus!
