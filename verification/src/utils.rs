//! Discovery of manifests among the entries of a directory tree, and the
//! display of file paths and failure tables.

use crate::error_sets::ListingSet;
use crate::text::{
    concat2, concat3, decimal, decimal_string, has_substring, str_eq, text_contains, views,
};
use vstd::prelude::*;

verus! {

/// One entry of a directory tree: the name of the file and its whole path.
pub struct Entry {
    pub file_name: String,
    pub path: String,
}

/// The file name that marks a directory as a listing.
pub open spec fn manifest_name() -> Seq<char> {
    "Scarb.toml"@
}

/// Whether an entry is a manifest to verify: its file name is exactly the
/// manifest name, and its path holds `filter` where one is given.
pub open spec fn is_wanted(e: Entry, filter: Option<Seq<char>>) -> bool {
    &&& e.file_name@ == manifest_name()
    &&& match filter {
        Some(f) => has_substring(e.path@, f),
        None => true,
    }
}

/// The paths of the wanted entries among `entries`, in their order.
pub open spec fn wanted_paths(entries: Seq<Entry>, filter: Option<Seq<char>>) -> Seq<Seq<char>>
    decreases entries.len(),
{
    if entries.len() == 0 {
        Seq::empty()
    } else if is_wanted(entries.last(), filter) {
        wanted_paths(entries.drop_last(), filter).push(entries.last().path@)
    } else {
        wanted_paths(entries.drop_last(), filter)
    }
}

/// A filter, as a plain value.
pub open spec fn filter_view(filter: Option<&str>) -> Option<Seq<char>> {
    match filter {
        Some(f) => Some(f@),
        None => None,
    }
}

/// The manifests among the entries of a directory tree: the path of every
/// entry whose file name is exactly the manifest name and, where a filter is
/// given, whose path holds it.
pub fn find_scarb_manifests(entries: &Vec<Entry>, filter: Option<&str>) -> (out: Vec<String>)
    ensures
        views(out@) == wanted_paths(entries@, filter_view(filter)),
{
    let mut out: Vec<String> = Vec::new();
    let mut i: usize = 0;
    while i < entries.len()
        invariant
            i <= entries.len(),
            views(out@) == wanted_paths(entries@.take(i as int), filter_view(filter)),
        decreases entries.len() - i,
    {
        let e = &entries[i];
        let named = str_eq(e.file_name.as_str(), "Scarb.toml");
        let wanted = named && match filter {
            Some(f) => text_contains(e.path.as_str(), f),
            None => true,
        };
        assert(entries@.take(i + 1).drop_last() == entries@.take(i as int));
        if wanted {
            out.push(e.path.clone());
        }
        i += 1;
    }
    assert(entries@.take(entries.len() as int) == entries@);
    out
}

/// The text that a terminal shows as `file_path` and opens as the file at
/// `absolute_path`.
pub open spec fn hyperlink(file_path: Seq<char>, absolute_path: Seq<char>) -> Seq<char> {
    "\x1B]8;;file://"@ + absolute_path + "\x07"@ + file_path + "\x1B]8;;\x07"@
}

/// The path of a file in a form that a terminal shows as a link: the
/// absolute path as the target, the given path as the text.
pub fn clickable(file_path: &str, absolute_path: &str) -> (r: String)
    ensures
        r@ == hyperlink(file_path@, absolute_path@),
{
    let mut r = concat3("\x1B]8;;file://", absolute_path, "\x07");
    r.append(file_path);
    r.append("\x1B]8;;\x07");
    r
}

/// A table of failures: a heading with the section's name and the number of
/// failures, and one row for each.
pub struct ErrorTable {
    pub heading: String,
    pub rows: Vec<String>,
}

/// The heading of a table: the name, a colon and the number of failures.
pub open spec fn table_heading(section_name: Seq<char>, n: nat) -> Seq<char> {
    section_name + ": "@ + decimal(n)
}

/// A row of a table.
pub open spec fn table_row(error: Seq<char>) -> Seq<char> {
    " - "@ + error
}

/// The table of a set of failures, one row for each in the order in which
/// they came; none for an empty set.
pub fn error_table(errors: &ListingSet, section_name: &str) -> (r: Option<ErrorTable>)
    ensures
        r is None <==> errors@ == Set::<Seq<char>>::empty(),
        r matches Some(t) ==> {
            &&& t.heading@ == table_heading(section_name@, errors@.len())
            &&& t.rows@.len() == errors.order().len()
            &&& forall|i: int|
                0 <= i < t.rows@.len() ==> (#[trigger] t.rows@[i])@ == table_row(errors.order()[i])
        },
{
    if errors.is_empty() {
        return None;
    }
    let n = errors.len();
    let heading = concat3(section_name, ": ", decimal_string(n as u128).as_str());
    let members = errors.members();
    let mut rows: Vec<String> = Vec::new();
    let mut i: usize = 0;
    while i < members.len()
        invariant
            i <= members.len(),
            rows@.len() == i,
            forall|j: int| 0 <= j < i ==> (#[trigger] rows@[j])@ == table_row(views(members@)[j]),
        decreases members.len() - i,
    {
        let row = concat2(" - ", members[i].as_str());
        rows.push(row);
        i += 1;
    }
    Some(ErrorTable { heading, rows })
}

} // verus!
