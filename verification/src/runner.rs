//! The checks of one listing, step by step. The caller invokes the
//! toolchain; what to invoke next, and what a failure is recorded under, is
//! decided here.
//!
//! A run check first builds, since the toolchain does not build by itself
//! before it runs. Where that build fails the run is not attempted, and the
//! failure is recorded under the run check, not under the build check.
//! A failure ends one check only: the next check of the listing follows.

use crate::cmd::{invocation, subcommand, ScarbCmd};
use crate::error_sets::{is_recorded, recorded, ErrorSets};
use crate::text::{lines, text_lines, views};
use vstd::prelude::*;

verus! {

/// How far the checks of a listing have come: the index of the current
/// check, and whether the build that precedes a run has succeeded.
#[derive(Clone, Copy, Debug, PartialEq, Eq, Structural)]
pub struct Progress {
    pub index: usize,
    pub built: bool,
}

/// What the caller does next.
#[derive(Clone, Copy, Debug, PartialEq, Eq, Structural)]
pub enum Action {
    /// Invoke the toolchain with `command`, on behalf of `check`.
    Invoke { check: ScarbCmd, command: ScarbCmd },
    /// Every check of the listing has been dealt with.
    Finished,
}

/// What a run is for: all checks, or formatting alone.
#[derive(Clone, Copy, Debug, PartialEq, Eq, Structural)]
pub enum Mode {
    Verify,
    Format,
}

/// The next action at `p`.
pub open spec fn action_at(checks: Seq<ScarbCmd>, p: Progress) -> Action {
    if p.index >= checks.len() {
        Action::Finished
    } else if checks[p.index as int] == ScarbCmd::CairoRun() && !p.built {
        Action::Invoke { check: ScarbCmd::CairoRun(), command: ScarbCmd::Build() }
    } else {
        Action::Invoke { check: checks[p.index as int], command: checks[p.index as int] }
    }
}

/// Where the checks stand after the action at `p` succeeded or failed.
pub open spec fn progress_after(checks: Seq<ScarbCmd>, p: Progress, success: bool) -> Progress {
    match action_at(checks, p) {
        Action::Finished => p,
        Action::Invoke { check, command } => if success && check != command {
            Progress { index: p.index, built: true }
        } else {
            Progress { index: (p.index + 1) as usize, built: false }
        },
    }
}

/// The failure sets after the action at `p` succeeded or failed for the
/// listing `id`.
pub open spec fn failures_after(
    checks: Seq<ScarbCmd>,
    p: Progress,
    success: bool,
    sets: Map<ScarbCmd, Set<Seq<char>>>,
    id: Seq<char>,
) -> Map<ScarbCmd, Set<Seq<char>>> {
    match action_at(checks, p) {
        Action::Finished => sets,
        Action::Invoke { check, command } => if success {
            sets
        } else {
            recorded(sets, check, id)
        },
    }
}

/// The number of invocations that are left at most.
pub open spec fn steps_left(checks: Seq<ScarbCmd>, p: Progress) -> int {
    if p.index >= checks.len() {
        0
    } else {
        2 * (checks.len() - p.index) - if p.built {
            1int
        } else {
            0int
        }
    }
}

/// Before the first check.
pub fn start() -> (p: Progress)
    ensures
        p == (Progress { index: 0, built: false }),
{
    Progress { index: 0, built: false }
}

/// What the caller does next.
pub fn next_action(checks: &Vec<ScarbCmd>, p: &Progress) -> (a: Action)
    ensures
        a == action_at(checks@, *p),
{
    if p.index >= checks.len() {
        Action::Finished
    } else {
        match checks[p.index] {
            ScarbCmd::CairoRun() => if p.built {
                Action::Invoke { check: ScarbCmd::CairoRun(), command: ScarbCmd::CairoRun() }
            } else {
                Action::Invoke { check: ScarbCmd::CairoRun(), command: ScarbCmd::Build() }
            },
            c => Action::Invoke { check: c, command: c },
        }
    }
}

/// Takes in how the current action ended. A failure is recorded for the
/// listing `id` under the check that the action was made for; no check is
/// tried again.
pub fn advance(
    checks: &Vec<ScarbCmd>,
    p: Progress,
    success: bool,
    id: &str,
    errors: &mut ErrorSets,
) -> (next: Progress)
    ensures
        next == progress_after(checks@, p, success),
        final(errors)@ == failures_after(checks@, p, success, old(errors)@, id@),
        match action_at(checks@, p) {
            Action::Invoke { check, command } => if success {
                *final(errors) == *old(errors)
            } else {
                is_recorded(*old(errors), *final(errors), check, id@)
            },
            Action::Finished => *final(errors) == *old(errors),
        },
        action_at(checks@, p) != Action::Finished ==> steps_left(checks@, next) < steps_left(
            checks@,
            p,
        ),
{
    match next_action(checks, &p) {
        Action::Finished => p,
        Action::Invoke { check, command } => {
            assert(p.index < checks.len());
            if success {
                if check != command {
                    Progress { index: p.index, built: true }
                } else {
                    Progress { index: p.index + 1, built: false }
                }
            } else {
                errors.record(&check, id);
                Progress { index: p.index + 1, built: false }
            }
        },
    }
}

/// The arguments that a run passes to a command beside the defaults.
pub open spec fn extra_args(command: ScarbCmd, mode: Mode) -> Seq<Seq<char>> {
    match (command, mode) {
        (ScarbCmd::CairoRun(), _) => seq!["--available-gas=200000000"@],
        (ScarbCmd::Format(), Mode::Verify) => seq!["-c"@],
        _ => Seq::empty(),
    }
}

/// The arguments that a run passes to a command beside the defaults: the
/// gas limit for a run, and for the formatter, unless the run is there to
/// format, the flag that makes it check only.
pub fn extra_args_of(command: ScarbCmd, mode: Mode) -> (r: Vec<String>)
    ensures
        views(r@) == extra_args(command, mode),
{
    let mut r: Vec<String> = Vec::new();
    match command {
        ScarbCmd::CairoRun() => {
            r.push(String::from_str("--available-gas=200000000"));
        },
        ScarbCmd::Format() => {
            if mode == Mode::Verify {
                r.push(String::from_str("-c"));
            }
        },
        _ => {},
    }
    r
}

/// The argument list for an action; none when the listing is finished.
pub fn action_command_line(action: Action, manifest_path: &str, mode: Mode) -> (r: Option<
    Vec<String>,
>)
    ensures
        match action {
            Action::Finished => r is None,
            Action::Invoke { check, command } => r is Some && views(r->0@) == invocation(
                manifest_path@,
                subcommand(command),
                Seq::empty(),
                extra_args(command, mode),
            ),
        },
{
    match action {
        Action::Finished => None,
        Action::Invoke { check, command } => {
            let args = extra_args_of(command, mode);
            Some(command.command_line(manifest_path, &args))
        },
    }
}

/// What is shown of one failure.
pub struct ErrorNotice {
    /// The file of the listing.
    pub file: String,
    /// The subcommand that failed.
    pub command: String,
    /// The file as a link.
    pub link: String,
    /// What the toolchain printed, line by line.
    pub details: Vec<String>,
}

/// What is shown of the failure of `cmd` on the file at `file_path`: the
/// file, the subcommand, the file as a link, and the text `e` line by line.
pub fn error_notice(e: &str, file_path: &str, clickable_file: &str, cmd: ScarbCmd) -> (n:
    ErrorNotice)
    ensures
        n.file@ == file_path@,
        n.command@ == subcommand(cmd),
        n.link@ == clickable_file@,
        views(n.details@) == lines(e@),
{
    ErrorNotice {
        file: String::from_str(file_path),
        command: cmd.as_str(),
        link: String::from_str(clickable_file),
        details: text_lines(e),
    }
}

/// Records that the listing `id` failed `cmd` with the text `e`, and hands
/// the text back. With `verbose`, also says what to show of the failure.
pub fn handle_error(
    errors: &mut ErrorSets,
    e: String,
    id: &str,
    file_path: &str,
    clickable_file: &str,
    cmd: ScarbCmd,
    verbose: bool,
) -> (r: (Option<ErrorNotice>, String))
    ensures
        is_recorded(*old(errors), *final(errors), cmd, id@),
        r.1 == e,
        r.0 is Some <==> verbose,
        r.0 matches Some(n) ==> {
            &&& n.file@ == file_path@
            &&& n.command@ == subcommand(cmd)
            &&& n.link@ == clickable_file@
            &&& views(n.details@) == lines(e@)
        },
{
    let notice = if verbose {
        Some(error_notice(e.as_str(), file_path, clickable_file, cmd))
    } else {
        None
    };
    errors.record(&cmd, id);
    (notice, e)
}

/// A failure touches the set of one check only, the one that the action was
/// made for; and a failed build before a run counts as a failed run.
pub proof fn lemma_failure_recorded_under_check(
    checks: Seq<ScarbCmd>,
    p: Progress,
    sets: Map<ScarbCmd, Set<Seq<char>>>,
    id: Seq<char>,
    other: ScarbCmd,
)
    requires
        p.index < checks.len() <= usize::MAX,
        other != checks[p.index as int],
        sets.dom().contains(other),
        sets.dom().contains(checks[p.index as int]),
    ensures
        failures_after(checks, p, false, sets, id)[other] == sets[other],
        failures_after(checks, p, false, sets, id)[checks[p.index as int]]
            == sets[checks[p.index as int]].insert(id),
        failures_after(checks, p, true, sets, id) == sets,
        progress_after(checks, p, false).index == p.index + 1,
{
}

} // verus!
