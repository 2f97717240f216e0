//! The summary of a run: one section for each check that has failures, and
//! the total, from which the exit status follows.

use crate::cmd::{category_name, category_of, ScarbCmd};
use crate::error_sets::{exit_status, ErrorSets, Snapshot};
use crate::text::views;
use vstd::prelude::*;

verus! {

/// The heading under which the failures of a check are reported.
pub open spec fn category_title(cmd: ScarbCmd) -> Seq<char> {
    category_name(category_of(cmd))
}

/// The heading under which the failures of a check are reported.
pub fn title(cmd: ScarbCmd) -> (r: String)
    ensures
        r@ == category_title(cmd),
{
    String::from_str(cmd.category().name())
}

/// `cmd` alone if something failed it, else nothing.
pub open spec fn if_failed(cmd: ScarbCmd, snapshot: Snapshot) -> Seq<ScarbCmd> {
    if snapshot.members_of(cmd).len() == 0 {
        Seq::empty()
    } else {
        seq![cmd]
    }
}

/// The checks that a summary has a section for, in the order of the
/// sections: compile, run, test, format, each only if something failed it.
pub open spec fn reported(snapshot: Snapshot) -> Seq<ScarbCmd> {
    if_failed(ScarbCmd::Build(), snapshot) + if_failed(ScarbCmd::CairoRun(), snapshot) + if_failed(
        ScarbCmd::Test(),
        snapshot,
    ) + if_failed(ScarbCmd::Format(), snapshot)
}

/// The failures of one check.
pub struct Section {
    pub check: ScarbCmd,
    pub title: String,
    pub members: Vec<String>,
}

/// The summary of a run.
pub struct Summary {
    pub sections: Vec<Section>,
    pub total: u128,
}

impl Section {
    /// Whether this is the section of `check` for the failures in
    /// `snapshot`.
    pub open spec fn reports(&self, check: ScarbCmd, snapshot: Snapshot) -> bool {
        &&& self.check == check
        &&& self.title@ == category_title(check)
        &&& views(self.members@) == snapshot.members_of(check)
    }
}

impl Summary {
    /// The exit status of the run: 1 if anything failed, else 0.
    pub open spec fn exit_status(&self) -> int {
        if self.total > 0 {
            1
        } else {
            0
        }
    }

    /// The exit status of the run: 1 if anything failed, else 0.
    pub fn exit_code(&self) -> (r: i32)
        ensures
            r == self.exit_status(),
    {
        if self.total > 0 {
            1
        } else {
            0
        }
    }
}

fn push_section(sections: &mut Vec<Section>, snapshot: &Snapshot, check: ScarbCmd)
    ensures
        snapshot.members_of(check).len() == 0 ==> final(sections)@ == old(sections)@,
        snapshot.members_of(check).len() != 0 ==> {
            &&& final(sections)@.len() == old(sections)@.len() + 1
            &&& final(sections)@.drop_last() == old(sections)@
            &&& final(sections)@.last().reports(check, *snapshot)
        },
{
    let members = snapshot.members(check);
    if members.len() > 0 {
        let section = Section { check, title: title(check), members: members.clone() };
        sections.push(section);
    }
}

/// The summary of a run: one section for each check that something
/// failed, with the listings that failed it; and the number of failures
/// over all checks, which is 0 exactly if there is no section.
pub fn summarize(snapshot: &Snapshot) -> (r: Summary)
    ensures
        r.total == snapshot.count(),
        r.sections@.len() == reported(*snapshot).len(),
        forall|i: int|
            0 <= i < r.sections@.len() ==> (#[trigger] r.sections@[i]).reports(
                reported(*snapshot)[i],
                *snapshot,
            ),
        r.sections@.len() == 0 <==> r.exit_status() == 0,
{
    let mut sections: Vec<Section> = Vec::new();
    push_section(&mut sections, snapshot, ScarbCmd::Build());
    push_section(&mut sections, snapshot, ScarbCmd::CairoRun());
    push_section(&mut sections, snapshot, ScarbCmd::Test());
    push_section(&mut sections, snapshot, ScarbCmd::Format());
    Summary { sections, total: snapshot.total() }
}

/// The exit status of a summary is that of the failures it was made from:
/// 1 exactly if some listing failed some check.
pub proof fn lemma_summary_exit_status(errors: ErrorSets, snapshot: Snapshot, summary: Summary)
    requires
        snapshot.shows(errors),
        summary.total == snapshot.count(),
    ensures
        summary.exit_status() == exit_status(errors@),
{
}

} // verus!
