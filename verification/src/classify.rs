//! Classification of a listing: what kind of program it is, and whether it
//! holds tests. Three markers decide, each a literal text that is looked
//! for in every line of the source.

use crate::tags::{block_tags, block_tokens_of, tags_of_tokens, TagSet};
use crate::text::{contains, has_substring, lines, rows, split_lines, str_chars};
use vstd::prelude::*;

verus! {

/// What kind of program a listing is.
#[derive(Clone, Copy, Debug, PartialEq, Eq, Hash, Structural)]
pub enum Kind {
    Contract,
    Runnable,
    Plain,
}

/// What kind of program a listing is, and whether it holds tests.
#[derive(Clone, Copy, Debug, PartialEq, Eq, Hash, Structural)]
pub struct Classification {
    pub kind: Kind,
    pub has_tests: bool,
}

/// Expected statement in a starknet contract.
pub open spec fn contract_marker() -> Seq<char> {
    "#[starknet::contract]"@
}

/// Expected statement in a program that can be run.
pub open spec fn runnable_marker() -> Seq<char> {
    "fn main()"@
}

/// Expected statement in a program that holds tests.
pub open spec fn test_marker() -> Seq<char> {
    "#[test]"@
}

/// Expected statement in a program that holds a module of tests.
pub open spec fn test_module_marker() -> Seq<char> {
    "#[cfg(test)]"@
}

/// Some line holds `marker`.
pub open spec fn any_line_has(lines: Seq<Seq<char>>, marker: Seq<char>) -> bool {
    exists|i: int| 0 <= i < lines.len() && has_substring(#[trigger] lines[i], marker)
}

/// Contract before runnable before plain.
pub open spec fn kind_of(is_contract: bool, is_runnable: bool) -> Kind {
    if is_contract {
        Kind::Contract
    } else if is_runnable {
        Kind::Runnable
    } else {
        Kind::Plain
    }
}

/// The classification of a listing, given by its lines.
pub open spec fn classification(lines: Seq<Seq<char>>) -> Classification {
    Classification {
        kind: kind_of(
            any_line_has(lines, contract_marker()),
            any_line_has(lines, runnable_marker()),
        ),
        has_tests: any_line_has(lines, test_marker()) || any_line_has(lines, test_module_marker()),
    }
}

/// Whether some line holds `marker`.
pub fn some_line_has(lines: &Vec<Vec<char>>, marker: &str) -> (r: bool)
    ensures
        r == any_line_has(rows(lines@), marker@),
{
    let needle = str_chars(marker);
    let mut i: usize = 0;
    while i < lines.len()
        invariant
            i <= lines.len(),
            needle@ == marker@,
            forall|j: int| 0 <= j < i ==> !has_substring(#[trigger] rows(lines@)[j], marker@),
        decreases lines.len() - i,
    {
        assert(rows(lines@)[i as int] == lines@[i as int]@);
        if contains(&lines[i], &needle) {
            return true;
        }
        i += 1;
    }
    false
}

/// The classification of a listing, given by its lines.
pub fn classify_lines(lines: &Vec<Vec<char>>) -> (r: Classification)
    ensures
        r == classification(rows(lines@)),
{
    let is_contract = some_line_has(lines, "#[starknet::contract]");
    let is_runnable = some_line_has(lines, "fn main()");
    let has_tests = some_line_has(lines, "#[test]") || some_line_has(lines, "#[cfg(test)]");
    let kind = if is_contract {
        Kind::Contract
    } else if is_runnable {
        Kind::Runnable
    } else {
        Kind::Plain
    };
    Classification { kind, has_tests }
}

/// The classification of a listing, given by its source text.
pub fn classify(source: &str) -> (r: Classification)
    ensures
        r == classification(lines(source@)),
{
    let chars = str_chars(source);
    let lines = split_lines(&chars);
    classify_lines(&lines)
}

/// What the source of a listing says of it: its tags and its
/// classification.
#[derive(Clone, Copy, Debug)]
pub struct Profile {
    pub tags: TagSet,
    pub classification: Classification,
}

/// Reads the source of a listing once: the tags of its tag block, and its
/// classification from the markers in all of its lines, tag block included.
pub fn scan_source(source: &str) -> (r: Profile)
    ensures
        r.tags@ == block_tags(lines(source@)),
        r.classification == classification(lines(source@)),
{
    let chars = str_chars(source);
    let lines = split_lines(&chars);
    let tokens = block_tokens_of(&lines);
    Profile { tags: tags_of_tokens(&tokens), classification: classify_lines(&lines) }
}

/// A listing with a contract marker is a contract, whatever else it holds:
/// a runnable marker beside it does not make it runnable.
pub proof fn lemma_contract_overrides_runnable(lines: Seq<Seq<char>>)
    requires
        any_line_has(lines, contract_marker()),
    ensures
        classification(lines).kind == Kind::Contract,
        classification(lines).kind != Kind::Runnable,
{
}

} // verus!
