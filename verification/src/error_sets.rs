//! The failures of one run: for each check, the set of listings that
//! failed it. A listing stands at most once in each set.

use crate::cmd::ScarbCmd;
use crate::text::{str_eq, views};
use vstd::prelude::*;

verus! {

/// A set of listing identifiers.
pub struct ListingSet {
    items: Vec<String>,
}

impl View for ListingSet {
    type V = Set<Seq<char>>;

    closed spec fn view(&self) -> Set<Seq<char>> {
        views(self.items@).to_set()
    }
}

impl ListingSet {
    #[verifier::type_invariant]
    spec fn distinct(&self) -> bool {
        views(self.items@).no_duplicates()
    }

    /// The identifiers in the order in which they came.
    pub closed spec fn order(&self) -> Seq<Seq<char>> {
        views(self.items@)
    }

    /// The empty set.
    pub fn new() -> (r: ListingSet)
        ensures
            r@ == Set::<Seq<char>>::empty(),
            r.order() == Seq::<Seq<char>>::empty(),
    {
        let r = ListingSet { items: Vec::new() };
        r
    }

    /// Whether `id` is a member.
    pub fn contains(&self, id: &str) -> (r: bool)
        ensures
            r == self@.contains(id@),
    {
        let mut i: usize = 0;
        while i < self.items.len()
            invariant
                i <= self.items.len(),
                forall|j: int| 0 <= j < i ==> views(self.items@)[j] != id@,
            decreases self.items.len() - i,
        {
            if str_eq(self.items[i].as_str(), id) {
                assert(views(self.items@)[i as int] == id@);
                return true;
            }
            i += 1;
        }
        false
    }

    /// Inserts `id`; a second insert of the same identifier changes nothing.
    /// Returns whether the identifier was new.
    pub fn insert(&mut self, id: String) -> (r: bool)
        ensures
            final(self)@ == old(self)@.insert(id@),
            r == !old(self)@.contains(id@),
            final(self).order() == if r {
                old(self).order().push(id@)
            } else {
                old(self).order()
            },
    {
        proof {
            use_type_invariant(&*self);
        }
        if self.contains(id.as_str()) {
            false
        } else {
            let ghost before = views(self.items@);
            let mut taken = ListingSet { items: Vec::new() };
            core::mem::swap(self, &mut taken);
            let mut items = taken.items;
            items.push(id);
            assert(views(items@) == before.push(id@));
            *self = ListingSet { items };
            proof {
                assert(before.push(id@).to_set() =~= before.to_set().insert(id@)) by {
                    assert forall|x: Seq<char>| before.contains(x) implies before.push(
                        id@,
                    ).contains(x) by {
                        let i = choose|i: int| 0 <= i < before.len() && before[i] == x;
                        assert(before.push(id@)[i] == x);
                    }
                    assert(before.push(id@)[before.len() as int] == id@);
                }
            }
            true
        }
    }

    /// The number of members.
    pub fn len(&self) -> (r: usize)
        ensures
            r == self@.len(),
            self@.finite(),
    {
        proof {
            use_type_invariant(self);
            views(self.items@).unique_seq_to_set();
        }
        self.items.len()
    }

    /// Whether the set has no member.
    pub fn is_empty(&self) -> (r: bool)
        ensures
            r == (self@ == Set::<Seq<char>>::empty()),
    {
        proof {
            if self.items@.len() == 0 {
                assert(views(self.items@).to_set() =~= Set::<Seq<char>>::empty());
            } else {
                assert(views(self.items@)[0] == self.items@[0]@);
                assert(views(self.items@).to_set().contains(self.items@[0]@));
            }
        }
        self.items.len() == 0
    }

    /// The identifiers, each once, in the order in which they came.
    pub fn members(&self) -> (r: &Vec<String>)
        ensures
            views(r@) == self.order(),
            views(r@).to_set() == self@,
            views(r@).no_duplicates(),
            r@.len() == self@.len(),
    {
        proof {
            use_type_invariant(self);
            views(self.items@).unique_seq_to_set();
        }
        &self.items
    }
}

/// The failures of one run, by check.
pub struct ErrorSets {
    pub compile_errors: ListingSet,
    pub run_errors: ListingSet,
    pub test_errors: ListingSet,
    pub format_errors: ListingSet,
}

/// The failure sets after `id` failed `cmd`.
pub open spec fn recorded(
    sets: Map<ScarbCmd, Set<Seq<char>>>,
    cmd: ScarbCmd,
    id: Seq<char>,
) -> Map<ScarbCmd, Set<Seq<char>>> {
    sets.insert(cmd, sets[cmd].insert(id))
}

/// Whether `after` is `before` with the failure of `id` on `cmd` recorded:
/// the sets of the other checks are as they were, and the set of `cmd` has
/// `id` as its last member if it did not have it before.
pub open spec fn is_recorded(
    before: ErrorSets,
    after: ErrorSets,
    cmd: ScarbCmd,
    id: Seq<char>,
) -> bool {
    &&& after@ == recorded(before@, cmd, id)
    &&& forall|c: ScarbCmd| c != cmd ==> after.set_of(c) == before.set_of(c)
    &&& after.set_of(cmd).order() == if before@[cmd].contains(id) {
        before.set_of(cmd).order()
    } else {
        before.set_of(cmd).order().push(id)
    }
}

/// The number of failures over all checks.
pub open spec fn total_of(sets: Map<ScarbCmd, Set<Seq<char>>>) -> nat {
    sets[ScarbCmd::Build()].len() + sets[ScarbCmd::CairoRun()].len() + sets[ScarbCmd::Test()].len()
        + sets[ScarbCmd::Format()].len()
}

/// No failure under any check.
pub open spec fn no_failures() -> Map<ScarbCmd, Set<Seq<char>>> {
    Map::new(|c: ScarbCmd| true, |c: ScarbCmd| Set::<Seq<char>>::empty())
}

/// The exit status of a run: 1 if anything failed, else 0.
pub open spec fn exit_status(sets: Map<ScarbCmd, Set<Seq<char>>>) -> int {
    if total_of(sets) > 0 {
        1
    } else {
        0
    }
}

impl View for ErrorSets {
    type V = Map<ScarbCmd, Set<Seq<char>>>;

    open spec fn view(&self) -> Map<ScarbCmd, Set<Seq<char>>> {
        Map::new(
            |c: ScarbCmd| true,
            |c: ScarbCmd|
                match c {
                    ScarbCmd::Format() => self.format_errors@,
                    ScarbCmd::Build() => self.compile_errors@,
                    ScarbCmd::CairoRun() => self.run_errors@,
                    ScarbCmd::Test() => self.test_errors@,
                },
        )
    }
}

impl ErrorSets {
    /// The set that collects the failures of `cmd`.
    pub open spec fn set_of(&self, cmd: ScarbCmd) -> ListingSet {
        match cmd {
            ScarbCmd::Format() => self.format_errors,
            ScarbCmd::Build() => self.compile_errors,
            ScarbCmd::CairoRun() => self.run_errors,
            ScarbCmd::Test() => self.test_errors,
        }
    }

    /// No failure under any check.
    pub fn new() -> (r: ErrorSets)
        ensures
            r@ == no_failures(),
    {
        let r = ErrorSets {
            compile_errors: ListingSet::new(),
            run_errors: ListingSet::new(),
            test_errors: ListingSet::new(),
            format_errors: ListingSet::new(),
        };
        r
    }

    /// The set that collects the failures of `cmd`.
    pub fn get_mut_error_set(&mut self, cmd: &ScarbCmd) -> (r: &mut ListingSet)
        ensures
            *r == old(self).set_of(*cmd),
            *final(r) == final(self).set_of(*cmd),
            forall|c: ScarbCmd| c != *cmd ==> final(self).set_of(c) == old(self).set_of(c),
            r@ == old(self)@[*cmd],
            final(self)@ == old(self)@.insert(*cmd, final(r)@),
    {
        match cmd {
            ScarbCmd::Format() => &mut self.format_errors,
            ScarbCmd::Build() => &mut self.compile_errors,
            ScarbCmd::CairoRun() => &mut self.run_errors,
            ScarbCmd::Test() => &mut self.test_errors,
        }
    }

    /// The failures of `cmd`.
    pub fn error_set(&self, cmd: &ScarbCmd) -> (r: &ListingSet)
        ensures
            *r == self.set_of(*cmd),
            r@ == self@[*cmd],
    {
        match cmd {
            ScarbCmd::Format() => &self.format_errors,
            ScarbCmd::Build() => &self.compile_errors,
            ScarbCmd::CairoRun() => &self.run_errors,
            ScarbCmd::Test() => &self.test_errors,
        }
    }

    /// Records that the listing `id` failed `cmd`.
    pub fn record(&mut self, cmd: &ScarbCmd, id: &str)
        ensures
            is_recorded(*old(self), *final(self), *cmd, id@),
    {
        let set = self.get_mut_error_set(cmd);
        set.insert(String::from_str(id));
    }

    /// The number of failures over all checks.
    pub fn total(&self) -> (r: u128)
        ensures
            r == total_of(self@),
    {
        let a: u128 = self.compile_errors.len() as u128;
        let b: u128 = self.run_errors.len() as u128;
        let c: u128 = self.test_errors.len() as u128;
        let d: u128 = self.format_errors.len() as u128;
        a + b + c + d
    }

    /// The exit status of the run: 1 if anything failed, else 0.
    pub fn exit_code(&self) -> (r: i32)
        ensures
            r == exit_status(self@),
    {
        if self.total() > 0 {
            1
        } else {
            0
        }
    }
}

/// The failures of a run as they stood at one moment, for reading: for
/// each check the listings that failed it, each once, in the order in which
/// they came.
pub struct Snapshot {
    pub compile_errors: Vec<String>,
    pub run_errors: Vec<String>,
    pub test_errors: Vec<String>,
    pub format_errors: Vec<String>,
}

impl Snapshot {
    /// The listings that failed `cmd`.
    pub open spec fn members_of(&self, cmd: ScarbCmd) -> Seq<Seq<char>> {
        match cmd {
            ScarbCmd::Format() => views(self.format_errors@),
            ScarbCmd::Build() => views(self.compile_errors@),
            ScarbCmd::CairoRun() => views(self.run_errors@),
            ScarbCmd::Test() => views(self.test_errors@),
        }
    }

    /// The number of failures over all checks.
    pub open spec fn count(&self) -> nat {
        self.compile_errors@.len() + self.run_errors@.len() + self.test_errors@.len()
            + self.format_errors@.len()
    }

    /// Whether this is what `errors` holds.
    pub open spec fn shows(&self, errors: ErrorSets) -> bool {
        &&& forall|c: ScarbCmd| #[trigger] self.members_of(c) == errors.set_of(c).order()
        &&& forall|c: ScarbCmd| #[trigger] self.members_of(c).to_set() == errors@[c]
        &&& forall|c: ScarbCmd| #[trigger] self.members_of(c).no_duplicates()
        &&& self.count() == total_of(errors@)
    }

    /// The listings that failed `cmd`.
    pub fn members(&self, cmd: ScarbCmd) -> (r: &Vec<String>)
        ensures
            views(r@) == self.members_of(cmd),
    {
        match cmd {
            ScarbCmd::Format() => &self.format_errors,
            ScarbCmd::Build() => &self.compile_errors,
            ScarbCmd::CairoRun() => &self.run_errors,
            ScarbCmd::Test() => &self.test_errors,
        }
    }

    /// The number of failures over all checks.
    pub fn total(&self) -> (r: u128)
        ensures
            r == self.count(),
    {
        let a: u128 = self.compile_errors.len() as u128;
        let b: u128 = self.run_errors.len() as u128;
        let c: u128 = self.test_errors.len() as u128;
        let d: u128 = self.format_errors.len() as u128;
        a + b + c + d
    }
}

impl ErrorSets {
    /// What the sets hold now, for reading. It is taken once, when every
    /// listing is finished.
    pub fn snapshot(&self) -> (r: Snapshot)
        ensures
            r.shows(*self),
    {
        Snapshot {
            compile_errors: self.compile_errors.members().clone(),
            run_errors: self.run_errors.members().clone(),
            test_errors: self.test_errors.members().clone(),
            format_errors: self.format_errors.members().clone(),
        }
    }
}

/// Recording is idempotent: the same failure recorded twice leaves the sets
/// as after the first time.
pub proof fn lemma_record_idempotent(
    sets: Map<ScarbCmd, Set<Seq<char>>>,
    cmd: ScarbCmd,
    id: Seq<char>,
)
    ensures
        recorded(recorded(sets, cmd, id), cmd, id) == recorded(sets, cmd, id),
{
    assert(sets[cmd].insert(id).insert(id) =~= sets[cmd].insert(id));
}

/// One failure recorded twice in a run without failures gives a set of size
/// one, and a total of one.
pub proof fn lemma_record_twice_counts_once(cmd: ScarbCmd, id: Seq<char>)
    ensures
        recorded(recorded(no_failures(), cmd, id), cmd, id)[cmd].len() == 1,
        total_of(recorded(recorded(no_failures(), cmd, id), cmd, id)) == 1,
        exit_status(recorded(recorded(no_failures(), cmd, id), cmd, id)) == 1,
{
}

/// Recording under one check leaves the sets of the other checks as they
/// were.
pub proof fn lemma_record_keeps_others(
    sets: Map<ScarbCmd, Set<Seq<char>>>,
    cmd: ScarbCmd,
    id: Seq<char>,
    other: ScarbCmd,
)
    requires
        other != cmd,
    ensures
        recorded(sets, cmd, id)[other] == sets[other],
        recorded(sets, cmd, id)[cmd].contains(id),
{
}

/// A failure is local to its listing: recording it changes for no other
/// listing whether it stands in any set.
pub proof fn lemma_record_local_to_listing(
    sets: Map<ScarbCmd, Set<Seq<char>>>,
    cmd: ScarbCmd,
    id: Seq<char>,
    check: ScarbCmd,
    other: Seq<char>,
)
    requires
        other != id,
        sets.dom().contains(check),
        sets.dom().contains(cmd),
    ensures
        recorded(sets, cmd, id)[check].contains(other) == sets[check].contains(other),
{
}

} // verus!
