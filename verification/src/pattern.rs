//! Regular expressions, which this crate leaves to the `regex` crate. What a
//! pattern matches is not stated here: each result has a name, and the
//! functions that use one say what they make of it.

use vstd::prelude::*;

verus! {

/// What `regex::Regex::replace_all` returns for the pattern, the text and
/// the replacement, in which `$1` stands for the first group: the text with
/// every match replaced. `None` where `regex::Regex::new` refuses the
/// pattern.
pub uninterp spec fn regex_replace_all(
    pattern: Seq<char>,
    text: Seq<char>,
    replacement: Seq<char>,
) -> Option<Seq<char>>;

/// What `regex::Regex::captures_iter` yields for the pattern and the text:
/// the matches from left to right, none overlapping another, and for each
/// match its groups, the whole match first; a group that took no part in
/// the match is `None`. `None` where `regex::Regex::new` refuses the
/// pattern.
pub uninterp spec fn regex_captures(pattern: Seq<char>, text: Seq<char>) -> Option<
    Seq<Seq<Option<Seq<char>>>>,
>;

/// The groups of one match, as plain values.
pub open spec fn group_views(groups: Seq<Option<String>>) -> Seq<Option<Seq<char>>> {
    Seq::new(
        groups.len(),
        |i: int|
            match groups[i] {
                Some(s) => Some(s@),
                None => None,
            },
    )
}

/// The matches of a text, as plain values.
pub open spec fn match_views(matches: Seq<Vec<Option<String>>>) -> Seq<Seq<Option<Seq<char>>>> {
    Seq::new(matches.len(), |i: int| group_views(matches[i]@))
}

/// Calls `regex::Regex::new` on the pattern and `regex::Regex::replace_all`
/// on the text. The contract only names the result.
#[verifier::external_body]
pub(crate) fn replace_all(pattern: &str, text: &str, replacement: &str) -> (r: Option<String>)
    ensures
        match r {
            Some(s) => regex_replace_all(pattern@, text@, replacement@) == Some(s@),
            None => regex_replace_all(pattern@, text@, replacement@) is None,
        },
{
    match regex::Regex::new(pattern) {
        Ok(re) => Some(re.replace_all(text, replacement).into_owned()),
        Err(_) => None,
    }
}

/// Calls `regex::Regex::new` on the pattern and
/// `regex::Regex::captures_iter` on the text, and copies each group's text.
/// The contract only names the result.
#[verifier::external_body]
pub(crate) fn captures(pattern: &str, text: &str) -> (r: Option<Vec<Vec<Option<String>>>>)
    ensures
        match r {
            Some(m) => regex_captures(pattern@, text@) == Some(match_views(m@)),
            None => regex_captures(pattern@, text@) is None,
        },
{
    match regex::Regex::new(pattern) {
        Ok(re) => Some(
            re.captures_iter(text).map(
                |c| c.iter().map(|g| g.map(|m| m.as_str().to_string())).collect(),
            ).collect(),
        ),
        Err(_) => None,
    }
}

} // verus!
