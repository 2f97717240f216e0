//! The toolchain commands with their built-in arguments.

use crate::cmd::{build_invocation, invocation, ScarbCmd, ToolOutcome};
use crate::text::views;
use vstd::prelude::*;

verus! {

/// One check against the toolchain.
#[derive(Clone, Copy, Debug, PartialEq, Eq, Hash, Structural)]
pub enum Cmd {
    ScarbFormat(),
    ScarbBuild(),
    ScarbCairoRun(),
    ScarbTest(),
}

/// The toolchain subcommand of a check.
pub open spec fn subcommand(cmd: Cmd) -> Seq<char> {
    match cmd {
        Cmd::ScarbFormat() => "fmt"@,
        Cmd::ScarbBuild() => "build"@,
        Cmd::ScarbCairoRun() => "cairo-run"@,
        Cmd::ScarbTest() => "test"@,
    }
}

/// The arguments that a check always passes: the formatter only checks,
/// and a run has a gas limit.
pub open spec fn builtin_args(cmd: Cmd) -> Seq<Seq<char>> {
    match cmd {
        Cmd::ScarbFormat() => seq!["-c"@],
        Cmd::ScarbBuild() => Seq::empty(),
        Cmd::ScarbCairoRun() => seq!["--available-gas=20000000"@],
        Cmd::ScarbTest() => Seq::empty(),
    }
}

/// The argument lists of the invocations that make up a check, in order: a
/// run is preceded by a build.
pub open spec fn invocations(cmd: Cmd, manifest_path: Seq<char>) -> Seq<Seq<Seq<char>>> {
    let own = invocation(manifest_path, subcommand(cmd), builtin_args(cmd), Seq::empty());
    match cmd {
        Cmd::ScarbCairoRun() => seq![
            invocation(manifest_path, subcommand(Cmd::ScarbBuild()), Seq::empty(), Seq::empty()),
            own,
        ],
        _ => seq![own],
    }
}

/// What a check yields for the outcomes of its invocations from index `i`
/// on: the first failure, else success.
pub open spec fn verdict_from(outcomes: Seq<ToolOutcome>, i: int) -> Result<(), Seq<char>>
    decreases outcomes.len() - i,
{
    if 0 <= i < outcomes.len() {
        match outcomes[i] {
            ToolOutcome::SpawnFailed { message } => Err(message@),
            ToolOutcome::Exited { success, stdout, stderr } => if success {
                verdict_from(outcomes, i + 1)
            } else {
                Err(stderr@)
            },
        }
    } else {
        Ok(())
    }
}

/// A verdict, as plain values.
pub open spec fn verdict_view(r: Result<(), String>) -> Result<(), Seq<char>> {
    match r {
        Ok(()) => Ok(()),
        Err(e) => Err(e@),
    }
}

impl Cmd {
    /// The toolchain subcommand of this check.
    pub fn as_str(&self) -> (r: String)
        ensures
            r@ == subcommand(*self),
    {
        let command = match self {
            Cmd::ScarbFormat() => "fmt",
            Cmd::ScarbBuild() => "build",
            Cmd::ScarbCairoRun() => "cairo-run",
            Cmd::ScarbTest() => "test",
        };
        String::from_str(command)
    }

    /// The option that names the manifest, and the manifest's path.
    pub fn manifest_option(&self, manifest_path: &str) -> (r: Vec<String>)
        ensures
            views(r@) == crate::cmd::manifest_args(manifest_path@),
    {
        let mut r: Vec<String> = Vec::new();
        r.push(String::from_str("--manifest-path"));
        r.push(String::from_str(manifest_path));
        r
    }

    /// The arguments that this check always passes.
    pub fn args(&self) -> (r: Vec<String>)
        ensures
            views(r@) == builtin_args(*self),
    {
        let mut r: Vec<String> = Vec::new();
        match self {
            Cmd::ScarbFormat() => {
                r.push(String::from_str("-c"));
            },
            Cmd::ScarbCairoRun() => {
                r.push(String::from_str("--available-gas=20000000"));
            },
            _ => {},
        }
        r
    }

    /// The check in the selector's terms.
    pub fn check(&self) -> (r: ScarbCmd)
        ensures
            crate::cmd::subcommand(r) == subcommand(*self),
            r == match *self {
                Cmd::ScarbFormat() => ScarbCmd::Format(),
                Cmd::ScarbBuild() => ScarbCmd::Build(),
                Cmd::ScarbCairoRun() => ScarbCmd::CairoRun(),
                Cmd::ScarbTest() => ScarbCmd::Test(),
            },
    {
        match self {
            Cmd::ScarbFormat() => ScarbCmd::Format(),
            Cmd::ScarbBuild() => ScarbCmd::Build(),
            Cmd::ScarbCairoRun() => ScarbCmd::CairoRun(),
            Cmd::ScarbTest() => ScarbCmd::Test(),
        }
    }

    /// The check that the selector's check stands for here.
    pub fn from_check(check: ScarbCmd) -> (r: Cmd)
        ensures
            r.check_spec() == check,
    {
        match check {
            ScarbCmd::Format() => Cmd::ScarbFormat(),
            ScarbCmd::Build() => Cmd::ScarbBuild(),
            ScarbCmd::CairoRun() => Cmd::ScarbCairoRun(),
            ScarbCmd::Test() => Cmd::ScarbTest(),
        }
    }

    /// The check in the selector's terms.
    pub open spec fn check_spec(&self) -> ScarbCmd {
        match *self {
            Cmd::ScarbFormat() => ScarbCmd::Format(),
            Cmd::ScarbBuild() => ScarbCmd::Build(),
            Cmd::ScarbCairoRun() => ScarbCmd::CairoRun(),
            Cmd::ScarbTest() => ScarbCmd::Test(),
        }
    }

    /// The argument lists of the invocations that make up this check, in
    /// the order in which they are made. The caller stops at the first that
    /// fails.
    pub fn command_lines(&self, manifest_path: &str) -> (r: Vec<Vec<String>>)
        ensures
            r@.len() == invocations(*self, manifest_path@).len(),
            forall|i: int|
                0 <= i < r@.len() ==> views((#[trigger] r@[i])@) == invocations(
                    *self,
                    manifest_path@,
                )[i],
    {
        let none: Vec<String> = Vec::new();
        let mut r: Vec<Vec<String>> = Vec::new();
        if let Cmd::ScarbCairoRun() = self {
            r.push(build_invocation(manifest_path, Cmd::ScarbBuild().as_str(), &none, &none));
        }
        let defaults = self.args();
        r.push(build_invocation(manifest_path, self.as_str(), &defaults, &none));
        r
    }
}

/// What a check yields for the outcomes of its invocations: the text of the
/// first that could not be started or exited with a failure, else success.
/// A run whose build fails thus fails as a run.
pub fn verdict(outcomes: &Vec<ToolOutcome>) -> (r: Result<(), String>)
    ensures
        verdict_view(r) == verdict_from(outcomes@, 0),
{
    let mut i: usize = 0;
    while i < outcomes.len()
        invariant
            i <= outcomes.len(),
            verdict_from(outcomes@, 0) == verdict_from(outcomes@, i as int),
        decreases outcomes.len() - i,
    {
        match &outcomes[i] {
            ToolOutcome::SpawnFailed { message } => {
                return Err(message.clone());
            },
            ToolOutcome::Exited { success, stdout, stderr } => {
                if !*success {
                    return Err(stderr.clone());
                }
            },
        }
        i += 1;
    }
    Ok(())
}

} // verus!
