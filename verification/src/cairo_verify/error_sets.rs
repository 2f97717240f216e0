//! The failures of one run, by check, with a set of its own for contract
//! failures.

use crate::cairo_verify::cmd::Cmd;
use crate::error_sets::ListingSet;
use vstd::prelude::*;

verus! {

/// The failures of one run, by check.
pub struct ErrorSets {
    pub compile_errors: ListingSet,
    pub run_errors: ListingSet,
    pub test_errors: ListingSet,
    pub format_errors: ListingSet,
    pub starknet_errors: ListingSet,
}

/// The failure sets after `id` failed `cmd`.
pub open spec fn recorded(sets: Map<Cmd, Set<Seq<char>>>, cmd: Cmd, id: Seq<char>) -> Map<
    Cmd,
    Set<Seq<char>>,
> {
    sets.insert(cmd, sets[cmd].insert(id))
}

/// Whether `after` is `before` with the failure of `id` on `cmd` recorded:
/// the other sets are as they were, and the set of `cmd` has `id` as its
/// last member if it did not have it before.
pub open spec fn is_recorded(before: ErrorSets, after: ErrorSets, cmd: Cmd, id: Seq<char>) -> bool {
    &&& after@ == recorded(before@, cmd, id)
    &&& forall|c: Cmd| c != cmd ==> after.set_of(c) == before.set_of(c)
    &&& after.starknet_errors == before.starknet_errors
    &&& after.set_of(cmd).order() == if before@[cmd].contains(id) {
        before.set_of(cmd).order()
    } else {
        before.set_of(cmd).order().push(id)
    }
}

/// The number of failures over all checks.
pub open spec fn total_of(sets: Map<Cmd, Set<Seq<char>>>) -> nat {
    sets[Cmd::ScarbBuild()].len() + sets[Cmd::ScarbCairoRun()].len() + sets[Cmd::ScarbTest()].len()
        + sets[Cmd::ScarbFormat()].len()
}

impl View for ErrorSets {
    type V = Map<Cmd, Set<Seq<char>>>;

    /// The failures by check. The set of contract failures is no check's
    /// set and stays out of this view.
    open spec fn view(&self) -> Map<Cmd, Set<Seq<char>>> {
        Map::new(
            |c: Cmd| true,
            |c: Cmd|
                match c {
                    Cmd::ScarbFormat() => self.format_errors@,
                    Cmd::ScarbBuild() => self.compile_errors@,
                    Cmd::ScarbCairoRun() => self.run_errors@,
                    Cmd::ScarbTest() => self.test_errors@,
                },
        )
    }
}

impl ErrorSets {
    /// The set that collects the failures of `cmd`.
    pub open spec fn set_of(&self, cmd: Cmd) -> ListingSet {
        match cmd {
            Cmd::ScarbFormat() => self.format_errors,
            Cmd::ScarbBuild() => self.compile_errors,
            Cmd::ScarbCairoRun() => self.run_errors,
            Cmd::ScarbTest() => self.test_errors,
        }
    }

    /// No failure under any check.
    pub fn new() -> (r: ErrorSets)
        ensures
            forall|c: Cmd| #[trigger] r@[c] == Set::<Seq<char>>::empty(),
            r.starknet_errors@ == Set::<Seq<char>>::empty(),
            total_of(r@) == 0,
    {
        ErrorSets {
            compile_errors: ListingSet::new(),
            run_errors: ListingSet::new(),
            test_errors: ListingSet::new(),
            format_errors: ListingSet::new(),
            starknet_errors: ListingSet::new(),
        }
    }

    /// The set that collects the failures of `cmd`.
    pub fn get_mut_error_set(&mut self, cmd: &Cmd) -> (r: &mut ListingSet)
        ensures
            *r == old(self).set_of(*cmd),
            *final(r) == final(self).set_of(*cmd),
            forall|c: Cmd| c != *cmd ==> final(self).set_of(c) == old(self).set_of(c),
            r@ == old(self)@[*cmd],
            final(self)@ == old(self)@.insert(*cmd, final(r)@),
            final(self).starknet_errors == old(self).starknet_errors,
    {
        match cmd {
            Cmd::ScarbFormat() => &mut self.format_errors,
            Cmd::ScarbBuild() => &mut self.compile_errors,
            Cmd::ScarbCairoRun() => &mut self.run_errors,
            Cmd::ScarbTest() => &mut self.test_errors,
        }
    }

    /// Records that the listing `id` failed `cmd`.
    pub fn record(&mut self, cmd: &Cmd, id: &str)
        ensures
            is_recorded(*old(self), *final(self), *cmd, id@),
    {
        let set = self.get_mut_error_set(cmd);
        set.insert(String::from_str(id));
    }

    /// The number of failures over the four checks.
    /// The exit status of the run: 1 if anything failed, else 0.
    pub fn exit_code(&self) -> (r: i32)
        ensures
            r == if total_of(self@) > 0 {
                1i32
            } else {
                0i32
            },
    {
        if self.total() > 0 {
            1
        } else {
            0
        }
    }

    /// The number of failures over the four checks.
    pub fn total(&self) -> (r: u128)
        ensures
            r == total_of(self@),
    {
        let a: u128 = self.compile_errors.len() as u128;
        let b: u128 = self.run_errors.len() as u128;
        let c: u128 = self.test_errors.len() as u128;
        let d: u128 = self.format_errors.len() as u128;
        a + b + c + d
    }
}

} // verus!
