//! The check selector: which checks apply to a listing, from its
//! classification, its tags and the checks that the caller switched off.
//!
//! The build check applies to a listing that is not tagged `DoesNotCompile`:
//! to a contract unless the starknet checks are off, to a runnable or plain
//! listing unless the compile checks are off. The run check applies to a
//! runnable listing alone, if it is tagged neither `DoesNotRun` nor
//! `DoesNotCompile` and the run checks are not off.
//!
//! Whatever the kind, the tests run if the listing has tests, is not tagged
//! `FailingTests` and test checks are not off; the formatter runs if the
//! listing is not tagged `IgnoreFormat` and format checks are not off.

use crate::classify::{Classification, Kind};
use crate::cmd::ScarbCmd;
use crate::tags::{TagSet, Tags};
use vstd::prelude::*;

verus! {

/// The checks that the caller switched off for the whole run.
#[derive(Clone, Copy, Debug, PartialEq, Eq, Structural)]
pub struct SkipFlags {
    pub formats_skip: bool,
    pub starknet_skip: bool,
    pub compile_skip: bool,
    pub run_skip: bool,
    pub test_skip: bool,
}

/// Whether `check` applies to a listing.
pub open spec fn applies(
    check: ScarbCmd,
    c: Classification,
    tags: Set<Tags>,
    skip: SkipFlags,
) -> bool {
    match check {
        ScarbCmd::Build() => !tags.contains(Tags::DoesNotCompile) && match c.kind {
            Kind::Contract => !skip.starknet_skip,
            Kind::Runnable => !skip.compile_skip,
            Kind::Plain => !skip.compile_skip,
        },
        ScarbCmd::CairoRun() => c.kind == Kind::Runnable && !tags.contains(Tags::DoesNotRun)
            && !tags.contains(Tags::DoesNotCompile) && !skip.run_skip,
        ScarbCmd::Test() => c.has_tests && !tags.contains(Tags::FailingTests) && !skip.test_skip,
        ScarbCmd::Format() => !tags.contains(Tags::IgnoreFormat) && !skip.formats_skip,
    }
}

/// `check` alone if it applies, else nothing.
pub open spec fn if_applies(
    check: ScarbCmd,
    c: Classification,
    tags: Set<Tags>,
    skip: SkipFlags,
) -> Seq<ScarbCmd> {
    if applies(check, c, tags, skip) {
        seq![check]
    } else {
        Seq::empty()
    }
}

/// The checks of a listing, in the order in which they run: build, run,
/// test, format, each only if it applies.
pub open spec fn selected(c: Classification, tags: Set<Tags>, skip: SkipFlags) -> Seq<ScarbCmd> {
    if_applies(ScarbCmd::Build(), c, tags, skip) + if_applies(ScarbCmd::CairoRun(), c, tags, skip)
        + if_applies(ScarbCmd::Test(), c, tags, skip) + if_applies(
        ScarbCmd::Format(),
        c,
        tags,
        skip,
    )
}

/// Whether `check` applies to a listing.
pub fn check_applies(check: ScarbCmd, c: &Classification, tags: &TagSet, skip: &SkipFlags) -> (r:
    bool)
    ensures
        r == applies(check, *c, tags@, *skip),
{
    match check {
        ScarbCmd::Build() => !tags.contains(Tags::DoesNotCompile) && match c.kind {
            Kind::Contract => !skip.starknet_skip,
            Kind::Runnable => !skip.compile_skip,
            Kind::Plain => !skip.compile_skip,
        },
        ScarbCmd::CairoRun() => matches!(c.kind, Kind::Runnable) && !tags.contains(
            Tags::DoesNotRun,
        ) && !tags.contains(Tags::DoesNotCompile) && !skip.run_skip,
        ScarbCmd::Test() => c.has_tests && !tags.contains(Tags::FailingTests) && !skip.test_skip,
        ScarbCmd::Format() => !tags.contains(Tags::IgnoreFormat) && !skip.formats_skip,
    }
}

/// The checks of a listing, in the order in which they run.
pub fn select_checks(c: &Classification, tags: &TagSet, skip: &SkipFlags) -> (r: Vec<ScarbCmd>)
    ensures
        r@ == selected(*c, tags@, *skip),
{
    let mut r: Vec<ScarbCmd> = Vec::new();
    if check_applies(ScarbCmd::Build(), c, tags, skip) {
        r.push(ScarbCmd::Build());
    }
    if check_applies(ScarbCmd::CairoRun(), c, tags, skip) {
        r.push(ScarbCmd::CairoRun());
    }
    if check_applies(ScarbCmd::Test(), c, tags, skip) {
        r.push(ScarbCmd::Test());
    }
    if check_applies(ScarbCmd::Format(), c, tags, skip) {
        r.push(ScarbCmd::Format());
    }
    r
}

/// The only check of a format run: the formatter, if it applies.
pub fn select_format(tags: &TagSet, skip: &SkipFlags) -> (r: Vec<ScarbCmd>)
    ensures
        r@ == if !tags@.contains(Tags::IgnoreFormat) && !skip.formats_skip {
            seq![ScarbCmd::Format()]
        } else {
            Seq::<ScarbCmd>::empty()
        },
{
    let mut r: Vec<ScarbCmd> = Vec::new();
    if !tags.contains(Tags::IgnoreFormat) && !skip.formats_skip {
        r.push(ScarbCmd::Format());
    }
    r
}

/// The place of a check in the order in which checks run.
pub open spec fn rank(check: ScarbCmd) -> int {
    match check {
        ScarbCmd::Build() => 0,
        ScarbCmd::CairoRun() => 1,
        ScarbCmd::Test() => 2,
        ScarbCmd::Format() => 3,
    }
}

/// The selection holds exactly the checks that apply, each once, in the
/// fixed order: whether one check is selected does not depend on any other.
pub proof fn lemma_selected_exactly_applicable(c: Classification, tags: Set<Tags>, skip: SkipFlags)
    ensures
        forall|check: ScarbCmd|
            selected(c, tags, skip).contains(check) <==> applies(check, c, tags, skip),
        selected(c, tags, skip).no_duplicates(),
        forall|i: int, j: int|
            0 <= i < j < selected(c, tags, skip).len() ==> rank(selected(c, tags, skip)[i]) < rank(
                selected(c, tags, skip)[j],
            ),
{
    let s = selected(c, tags, skip);
    let b = if_applies(ScarbCmd::Build(), c, tags, skip);
    let r = if_applies(ScarbCmd::CairoRun(), c, tags, skip);
    let t = if_applies(ScarbCmd::Test(), c, tags, skip);
    assert forall|check: ScarbCmd| applies(check, c, tags, skip) implies s.contains(check) by {
        match check {
            ScarbCmd::Build() => {
                assert(s[0] == check);
            },
            ScarbCmd::CairoRun() => {
                assert(s[b.len() as int] == check);
            },
            ScarbCmd::Test() => {
                assert(s[(b.len() + r.len()) as int] == check);
            },
            ScarbCmd::Format() => {
                assert(s[(b.len() + r.len() + t.len()) as int] == check);
            },
        }
    }
}

} // verus!
