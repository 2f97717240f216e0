//! The toolchain commands: the subcommand that each check runs, and the
//! argument list that is handed to the toolchain binary.

use crate::text::views;
use vstd::prelude::*;

verus! {

/// One check against the toolchain.
#[derive(Clone, Copy, Debug, PartialEq, Eq, Hash, Structural)]
pub enum ScarbCmd {
    Format(),
    Build(),
    CairoRun(),
    Test(),
}

/// The category under which the failures of a check are reported.
#[derive(Clone, Copy, Debug, PartialEq, Eq, Hash, Structural)]
pub enum ErrorCategory {
    Compile,
    Run,
    Test,
    Format,
}

/// The category of a check: one for each.
pub open spec fn category_of(cmd: ScarbCmd) -> ErrorCategory {
    match cmd {
        ScarbCmd::Build() => ErrorCategory::Compile,
        ScarbCmd::CairoRun() => ErrorCategory::Run,
        ScarbCmd::Test() => ErrorCategory::Test,
        ScarbCmd::Format() => ErrorCategory::Format,
    }
}

/// The heading of a category in a report.
pub open spec fn category_name(category: ErrorCategory) -> Seq<char> {
    match category {
        ErrorCategory::Compile => "Compile Errors"@,
        ErrorCategory::Run => "Run Errors"@,
        ErrorCategory::Test => "Test Errors"@,
        ErrorCategory::Format => "Format Errors"@,
    }
}

impl ErrorCategory {
    /// The heading of the category in a report.
    pub fn name(&self) -> (r: &'static str)
        ensures
            r@ == category_name(*self),
    {
        match self {
            ErrorCategory::Compile => "Compile Errors",
            ErrorCategory::Run => "Run Errors",
            ErrorCategory::Test => "Test Errors",
            ErrorCategory::Format => "Format Errors",
        }
    }

    /// The check whose failures the category holds.
    pub fn check(&self) -> (r: ScarbCmd)
        ensures
            category_of(r) == *self,
    {
        match self {
            ErrorCategory::Compile => ScarbCmd::Build(),
            ErrorCategory::Run => ScarbCmd::CairoRun(),
            ErrorCategory::Test => ScarbCmd::Test(),
            ErrorCategory::Format => ScarbCmd::Format(),
        }
    }
}

/// The toolchain subcommand of a check.
pub open spec fn subcommand(cmd: ScarbCmd) -> Seq<char> {
    match cmd {
        ScarbCmd::Format() => "fmt"@,
        ScarbCmd::Build() => "build"@,
        ScarbCmd::CairoRun() => "cairo-run"@,
        ScarbCmd::Test() => "test"@,
    }
}

/// The option that names the manifest, and the manifest's path.
pub open spec fn manifest_args(manifest_path: Seq<char>) -> Seq<Seq<char>> {
    seq!["--manifest-path"@, manifest_path]
}

/// `args` without those that stand among `defaults`.
pub open spec fn without(args: Seq<Seq<char>>, defaults: Seq<Seq<char>>) -> Seq<Seq<char>> {
    args.filter(|a: Seq<char>| !defaults.contains(a))
}

/// The defaults, followed by the given arguments that are not among them.
pub open spec fn merged_args(defaults: Seq<Seq<char>>, args: Seq<Seq<char>>) -> Seq<Seq<char>> {
    defaults + without(args, defaults)
}

/// The whole argument list of one invocation: the manifest option, the
/// subcommand, the defaults, and the given arguments that are not among the
/// defaults.
pub open spec fn invocation(
    manifest_path: Seq<char>,
    name: Seq<char>,
    defaults: Seq<Seq<char>>,
    args: Seq<Seq<char>>,
) -> Seq<Seq<char>> {
    manifest_args(manifest_path).push(name) + merged_args(defaults, args)
}

/// Whether `arg` stands in `list`.
pub fn has_arg(list: &Vec<String>, arg: &String) -> (r: bool)
    ensures
        r == views(list@).contains(arg@),
{
    let mut i: usize = 0;
    while i < list.len()
        invariant
            i <= list.len(),
            forall|j: int| 0 <= j < i ==> views(list@)[j] != arg@,
        decreases list.len() - i,
    {
        if list[i] == *arg {
            assert(views(list@)[i as int] == arg@);
            return true;
        }
        i += 1;
    }
    false
}

/// Appends to `out` the given arguments that are not among the defaults.
pub fn append_new_args(out: &mut Vec<String>, defaults: &Vec<String>, args: &Vec<String>)
    ensures
        views(final(out)@) == views(old(out)@) + without(views(args@), views(defaults@)),
{
    let ghost pred = |a: Seq<char>| !views(defaults@).contains(a);
    let mut i: usize = 0;
    while i < args.len()
        invariant
            i <= args.len(),
            pred == |a: Seq<char>| !views(defaults@).contains(a),
            views(out@) == views(old(out)@) + views(args@).take(i as int).filter(pred),
        decreases args.len() - i,
    {
        let ghost before = views(out@);
        proof {
            views(args@).take(i as int).lemma_filter_push(args@[i as int]@, pred);
            assert(views(args@).take(i + 1) == views(args@).take(i as int).push(args@[i as int]@));
        }
        if !has_arg(defaults, &args[i]) {
            out.push(args[i].clone());
            assert(views(out@) == before.push(args@[i as int]@));
        }
        i += 1;
    }
    assert(views(args@).take(args.len() as int) == views(args@));
}

/// The whole argument list of one invocation.
pub fn build_invocation(
    manifest_path: &str,
    name: String,
    defaults: &Vec<String>,
    args: &Vec<String>,
) -> (out: Vec<String>)
    ensures
        views(out@) == invocation(manifest_path@, name@, views(defaults@), views(args@)),
{
    let mut out: Vec<String> = Vec::new();
    out.push(String::from_str("--manifest-path"));
    out.push(String::from_str(manifest_path));
    out.push(name);
    let ghost head = views(out@);
    let mut i: usize = 0;
    while i < defaults.len()
        invariant
            i <= defaults.len(),
            views(out@) == head + views(defaults@).take(i as int),
        decreases defaults.len() - i,
    {
        let ghost before = views(out@);
        out.push(defaults[i].clone());
        assert(views(out@) == before.push(defaults@[i as int]@));
        i += 1;
    }
    append_new_args(&mut out, defaults, args);
    out
}

impl ScarbCmd {
    /// The toolchain subcommand of this check.
    pub fn as_str(&self) -> (r: String)
        ensures
            r@ == subcommand(*self),
    {
        let command = match self {
            ScarbCmd::Format() => "fmt",
            ScarbCmd::Build() => "build",
            ScarbCmd::CairoRun() => "cairo-run",
            ScarbCmd::Test() => "test",
        };
        String::from_str(command)
    }

    /// The category under which the failures of this check are reported.
    pub fn category(&self) -> (r: ErrorCategory)
        ensures
            r == category_of(*self),
    {
        match self {
            ScarbCmd::Build() => ErrorCategory::Compile,
            ScarbCmd::CairoRun() => ErrorCategory::Run,
            ScarbCmd::Test() => ErrorCategory::Test,
            ScarbCmd::Format() => ErrorCategory::Format,
        }
    }

    /// The option that names the manifest, and the manifest's path.
    pub fn manifest_option(&self, manifest_path: &str) -> (r: Vec<String>)
        ensures
            views(r@) == manifest_args(manifest_path@),
    {
        let mut r: Vec<String> = Vec::new();
        r.push(String::from_str("--manifest-path"));
        r.push(String::from_str(manifest_path));
        r
    }

    /// The arguments that this check always passes: none, for each check.
    pub fn default_args(&self) -> (r: Vec<String>)
        ensures
            r@.len() == 0,
    {
        Vec::new()
    }

    /// The arguments handed to the toolchain binary for this check.
    pub fn command_line(&self, manifest_path: &str, args: &Vec<String>) -> (out: Vec<String>)
        ensures
            views(out@) == invocation(
                manifest_path@,
                subcommand(*self),
                Seq::empty(),
                views(args@),
            ),
    {
        let defaults = self.default_args();
        assert(views(defaults@) == Seq::<Seq<char>>::empty());
        build_invocation(manifest_path, self.as_str(), &defaults, args)
    }
}

/// With no defaults, the given arguments follow the subcommand unchanged.
pub proof fn lemma_invocation_without_defaults(
    manifest_path: Seq<char>,
    name: Seq<char>,
    args: Seq<Seq<char>>,
)
    ensures
        invocation(manifest_path, name, Seq::empty(), args) == seq![
            "--manifest-path"@,
            manifest_path,
            name,
        ] + args,
{
    let pred = |a: Seq<char>| !Seq::<Seq<char>>::empty().contains(a);
    assert(args.filter(pred) == args) by {
        lemma_filter_all(args, pred);
    }
}

proof fn lemma_filter_all(s: Seq<Seq<char>>, pred: spec_fn(Seq<char>) -> bool)
    requires
        forall|i: int| 0 <= i < s.len() ==> pred(#[trigger] s[i]),
    ensures
        s.filter(pred) == s,
    decreases s.len(),
{
    reveal(Seq::filter);
    if s.len() > 0 {
        lemma_filter_all(s.drop_last(), pred);
    }
}

/// An argument that stands among the defaults is never passed twice: it is
/// not among the arguments that follow the defaults.
pub proof fn lemma_defaults_not_repeated(
    defaults: Seq<Seq<char>>,
    args: Seq<Seq<char>>,
    arg: Seq<char>,
)
    requires
        defaults.contains(arg),
    ensures
        !without(args, defaults).contains(arg),
{
    let pred = |a: Seq<char>| !defaults.contains(a);
    if without(args, defaults).contains(arg) {
        let i = choose|i: int| 0 <= i < args.filter(pred).len() && args.filter(pred)[i] == arg;
        args.lemma_filter_pred(pred, i);
    }
}

/// What the toolchain did with one invocation.
#[derive(Debug)]
pub enum ToolOutcome {
    /// The process could not be started.
    SpawnFailed { message: String },
    /// The process ran and exited.
    Exited { success: bool, stdout: String, stderr: String },
}

/// Why a check failed.
#[derive(Debug)]
pub enum CheckError {
    /// The toolchain could not be started; the text says why.
    Spawn(String),
    /// The toolchain exited with a failure; the texts are what it printed
    /// to its standard output and to its standard error.
    Failed { stdout: String, stderr: String },
}

impl CheckError {
    /// The text of the failure: why the toolchain could not be started, or
    /// what it printed to its standard output before it failed.
    pub fn message(&self) -> (r: &String)
        ensures
            r == match *self {
                CheckError::Spawn(m) => m,
                CheckError::Failed { stdout, stderr } => stdout,
            },
    {
        match self {
            CheckError::Spawn(m) => m,
            CheckError::Failed { stdout, stderr } => stdout,
        }
    }
}

/// What a check yields for an outcome: the captured standard output where
/// the toolchain exited with success, else the failure.
pub open spec fn check_result_of(outcome: ToolOutcome) -> Result<Seq<char>, CheckError> {
    match outcome {
        ToolOutcome::SpawnFailed { message } => Err(CheckError::Spawn(message)),
        ToolOutcome::Exited { success, stdout, stderr } => if success {
            Ok(stdout@)
        } else {
            Err(CheckError::Failed { stdout, stderr })
        },
    }
}

/// The result of a check, from what the toolchain did: its standard output
/// on success, and on failure what it printed.
pub fn check_result(outcome: ToolOutcome) -> (r: Result<String, CheckError>)
    ensures
        match r {
            Ok(out) => check_result_of(outcome) == Ok::<Seq<char>, CheckError>(out@),
            Err(e) => check_result_of(outcome) == Err::<Seq<char>, CheckError>(e),
        },
{
    match outcome {
        ToolOutcome::SpawnFailed { message } => Err(CheckError::Spawn(message)),
        ToolOutcome::Exited { success, stdout, stderr } => if success {
            Ok(stdout)
        } else {
            Err(CheckError::Failed { stdout, stderr })
        },
    }
}

} // verus!
