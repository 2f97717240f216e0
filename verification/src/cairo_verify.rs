//! The checks as one command without subcommands runs them: every check
//! carries its own arguments, and a failure is recorded under the listing's
//! link.

pub mod cmd;
pub mod config;
pub mod error_sets;

use crate::cairo_verify::cmd::{subcommand, Cmd};
use crate::cairo_verify::error_sets::{is_recorded, ErrorSets};
use vstd::prelude::*;

verus! {

/// The message of a failure. For a failed test or run it ends with what the
/// toolchain printed; for the other checks it only names the check and the
/// listing.
pub open spec fn failure_message(e: Seq<char>, clickable_file: Seq<char>, cmd: Cmd) -> Seq<char> {
    match cmd {
        Cmd::ScarbTest() => clickable_file + " -> "@ + subcommand(cmd) + ": "@ + e,
        Cmd::ScarbCairoRun() => clickable_file + " -> "@ + subcommand(cmd) + ": "@ + e,
        _ => subcommand(cmd) + " -> "@ + clickable_file,
    }
}

/// Records the listing under the check that it failed, and returns the
/// message to log.
pub fn handle_error(errors: &mut ErrorSets, e: &str, clickable_file: &str, cmd: Cmd) -> (msg:
    String)
    ensures
        msg@ == failure_message(e@, clickable_file@, cmd),
        is_recorded(*old(errors), *final(errors), cmd, clickable_file@),
{
    let msg = match cmd {
        Cmd::ScarbTest() | Cmd::ScarbCairoRun() => {
            let mut m = String::from_str(clickable_file);
            m.append(" -> ");
            m.append(cmd.as_str().as_str());
            m.append(": ");
            m.append(e);
            m
        },
        _ => {
            let mut m = cmd.as_str();
            m.append(" -> ");
            m.append(clickable_file);
            m
        },
    };
    errors.record(&cmd, clickable_file);
    msg
}

} // verus!
