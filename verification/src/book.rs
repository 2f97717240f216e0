//! The book preprocessor: numbers the listings of a book by their labels,
//! puts the numbers in place of the references to them, and takes the tag
//! lines out of the code blocks.
//!
//! A label is written `{{#label name}}` on a line of its own and gives the
//! next listing the number `chapter-label`. A reference `{{#ref name}}`
//! stands for that number, and `{{#chap name}}` for the number of the
//! chapter of that name.

use crate::pattern::{captures, match_views, regex_captures};
use crate::tags::{is_tag_line, tag_prefix};
use crate::text::{
    concat2, concat3, decimal, decimal_string, extend, has_prefix, lines, replace_text, replaced,
    starts_with, str_chars, str_eq, text_lines, text_of, to_string, views,
};
use crate::text_map::TextMap;
use vstd::prelude::*;

verus! {

/// What `str::to_lowercase` returns for a text.
pub uninterp spec fn lowercase_of(text: Seq<char>) -> Seq<char>;

/// Calls `str::to_lowercase`. The contract only names the result.
#[verifier::external_body]
pub(crate) fn lowercase(text: &str) -> (r: String)
    ensures
        r@ == lowercase_of(text@),
{
    text.to_lowercase()
}

/// One chapter of a book: what the preprocessor reads of it.
pub struct Chapter {
    /// The chapter's name.
    pub name: String,
    /// The chapter's contents.
    pub content: String,
    /// The first part of the chapter's section number, if it has one.
    pub number: Option<u32>,
    /// The chapter's location.
    pub path: Option<String>,
    /// The names of the chapters above it.
    pub parent_names: Vec<String>,
}

/// One item of a book.
pub enum BookItem {
    /// A chapter.
    Chapter(Chapter),
    /// A section separator.
    Separator,
    /// A part title.
    PartTitle(String),
}

/// The items of a book in the order in which they are read: a chapter
/// before the chapters below it.
pub struct Book {
    pub sections: Vec<BookItem>,
}

impl Chapter {
    /// A chapter without a number.
    pub fn new(name: &str, content: String, path: &str, parent_names: Vec<String>) -> (r: Chapter)
        ensures
            r.name@ == name@,
            r.content == content,
            r.number is None,
            r.path matches Some(p) && p@ == path@,
            r.parent_names == parent_names,
    {
        Chapter {
            name: String::from_str(name),
            content,
            number: None,
            path: Some(String::from_str(path)),
            parent_names,
        }
    }
}

impl Book {
    /// A book without items.
    pub fn new() -> (r: Book)
        ensures
            r.sections@.len() == 0,
    {
        Book { sections: Vec::new() }
    }

    /// Appends a chapter.
    pub fn push_item(&mut self, chapter: Chapter)
        ensures
            final(self).sections@ == old(self).sections@.push(BookItem::Chapter(chapter)),
    {
        self.sections.push(BookItem::Chapter(chapter));
    }
}

/// Why a chapter could not be processed.
pub enum Fault {
    /// A pattern was refused.
    BadPattern,
    /// A label stands twice.
    DuplicateLabel(Seq<char>),
    /// There are more labels than can be counted.
    TooManyLabels,
    /// A reference names a label that does not exist.
    MissingLabel(Seq<char>),
    /// A reference names a chapter that does not exist.
    MissingChapter(Seq<char>),
}

/// Why a chapter could not be processed.
#[derive(Debug)]
pub enum BookError {
    BadPattern,
    DuplicateLabel(String),
    TooManyLabels,
    MissingLabel(String),
    MissingChapter(String),
}

impl View for BookError {
    type V = Fault;

    open spec fn view(&self) -> Fault {
        match *self {
            BookError::BadPattern => Fault::BadPattern,
            BookError::DuplicateLabel(s) => Fault::DuplicateLabel(s@),
            BookError::TooManyLabels => Fault::TooManyLabels,
            BookError::MissingLabel(s) => Fault::MissingLabel(s@),
            BookError::MissingChapter(s) => Fault::MissingChapter(s@),
        }
    }
}

/// The text of a fault.
pub open spec fn fault_message(f: Fault) -> Seq<char> {
    match f {
        Fault::BadPattern => "Invalid regex"@,
        Fault::DuplicateLabel(l) => "Duplicate entry for label: "@ + l,
        Fault::TooManyLabels => "Too many labels"@,
        Fault::MissingLabel(l) => "Reference to label '"@ + l + "' not found"@,
        Fault::MissingChapter(c) => "Reference to chapter name '"@ + c + "' not found"@,
    }
}

impl BookError {
    /// The text of the error.
    pub fn message(&self) -> (r: String)
        ensures
            r@ == fault_message(self@),
    {
        match self {
            BookError::BadPattern => String::from_str("Invalid regex"),
            BookError::DuplicateLabel(l) => concat2("Duplicate entry for label: ", l.as_str()),
            BookError::TooManyLabels => String::from_str("Too many labels"),
            BookError::MissingLabel(l) => concat3(
                "Reference to label '",
                l.as_str(),
                "' not found",
            ),
            BookError::MissingChapter(c) => concat3(
                "Reference to chapter name '",
                c.as_str(),
                "' not found",
            ),
        }
    }
}

/// The fault of a result, if it is an error.
pub open spec fn fault_of(r: Result<(), BookError>) -> Option<Fault> {
    match r {
        Ok(()) => None,
        Err(e) => Some(e@),
    }
}

/// The values of a map of strings, as plain values.
pub open spec fn label_texts(m: Map<Seq<char>, String>) -> Map<Seq<char>, Seq<char>> {
    Map::new(|k: Seq<char>| m.contains_key(k), |k: Seq<char>| m[k]@)
}

/// The pattern of a label.
pub open spec fn label_pattern() -> Seq<char> {
    "\\{\\{#label\\s*([\\w-]+)\\s*\\}\\}"@
}

/// The pattern of a reference to a label.
pub open spec fn ref_pattern() -> Seq<char> {
    "\\{\\{#ref\\s*([\\w-]+)\\s*\\}\\}"@
}

/// The pattern of a reference to a chapter.
pub open spec fn chap_pattern() -> Seq<char> {
    "\\{\\{#chap\\s*([\\w-]+)\\s*\\}\\}"@
}

/// The name that a match holds: its first group.
pub open spec fn name_of(m: Seq<Option<Seq<char>>>) -> Option<Seq<char>> {
    if m.len() > 1 {
        m[1]
    } else {
        None
    }
}

/// The name that the first of the matches holds.
pub open spec fn first_name_of(ms: Seq<Seq<Option<Seq<char>>>>) -> Option<Seq<char>> {
    if ms.len() > 0 {
        name_of(ms[0])
    } else {
        None
    }
}

/// The label that a line holds: the name in the first match of the label
/// pattern.
pub open spec fn label_of(line: Seq<char>) -> Result<Option<Seq<char>>, Fault> {
    match regex_captures(label_pattern(), line) {
        None => Err(Fault::BadPattern),
        Some(ms) => Ok(first_name_of(ms)),
    }
}

/// The name that the first of the matches holds.
pub fn first_name(matches: &Vec<Vec<Option<String>>>) -> (r: Option<String>)
    ensures
        text_of(r) == first_name_of(match_views(matches@)),
{
    if matches.len() > 0 && matches[0].len() > 1 {
        matches[0][1].clone()
    } else {
        None
    }
}

/// The label that a line holds, if it holds one.
pub fn find_label(line: &str) -> (r: Result<Option<String>, BookError>)
    ensures
        match r {
            Ok(l) => label_of(line@) == Ok::<Option<Seq<char>>, Fault>(text_of(l)),
            Err(e) => label_of(line@) == Err::<Option<Seq<char>>, Fault>(e@),
        },
{
    match captures("\\{\\{#label\\s*([\\w-]+)\\s*\\}\\}", line) {
        None => Err(BookError::BadPattern),
        Some(ms) => Ok(first_name(&ms)),
    }
}

/// The number of a listing: the chapter's number, a hyphen and the
/// label's number in the chapter.
pub open spec fn listing_number(chapter: u32, label: int) -> Seq<char> {
    decimal(chapter as nat) + "-"@ + decimal(label as nat)
}

/// How far the labels of a chapter have been read.
pub struct LabelScan {
    /// The listing number of every label so far.
    pub labels: Map<Seq<char>, Seq<char>>,
    /// The number of the next label in the chapter.
    pub next: int,
    /// The lines that stay in the chapter.
    pub kept: Seq<Seq<char>>,
    /// Why reading stopped, if it did.
    pub fault: Option<Fault>,
}

/// The scan after a line whose label, if it has one, is `label`: a line
/// without a label stays; a label gets the next number and its line goes;
/// a label that is known already is a fault.
pub open spec fn line_noted(
    st: LabelScan,
    chapter: u32,
    line: Seq<char>,
    label: Option<Seq<char>>,
) -> LabelScan {
    match label {
        None => LabelScan {
            labels: st.labels,
            next: st.next,
            kept: st.kept.push(line),
            fault: None,
        },
        Some(l) => if st.labels.contains_key(l) {
            LabelScan {
                labels: st.labels,
                next: st.next,
                kept: st.kept,
                fault: Some(Fault::DuplicateLabel(l)),
            }
        } else if st.next >= usize::MAX {
            LabelScan {
                labels: st.labels,
                next: st.next,
                kept: st.kept,
                fault: Some(Fault::TooManyLabels),
            }
        } else {
            LabelScan {
                labels: st.labels.insert(l, listing_number(chapter, st.next)),
                next: st.next + 1,
                kept: st.kept,
                fault: None,
            }
        },
    }
}

/// The scan after one line.
pub open spec fn scan_line(st: LabelScan, chapter: u32, line: Seq<char>) -> LabelScan {
    match label_of(line) {
        Err(f) => LabelScan { labels: st.labels, next: st.next, kept: st.kept, fault: Some(f) },
        Ok(label) => line_noted(st, chapter, line, label),
    }
}

/// The scan after the lines from index `i` on, or up to the first fault.
pub open spec fn scan_lines(st: LabelScan, chapter: u32, lines: Seq<Seq<char>>, i: int) -> LabelScan
    decreases lines.len() - i,
{
    if st.fault is Some || i < 0 || i >= lines.len() {
        st
    } else {
        scan_lines(scan_line(st, chapter, lines[i]), chapter, lines, i + 1)
    }
}

/// The first `n` lines, each followed by a line feed.
pub open spec fn stacked(lines: Seq<Seq<char>>, n: int) -> Seq<char>
    decreases n,
{
    if n <= 0 {
        Seq::empty()
    } else {
        stacked(lines, n - 1) + lines[n - 1] + seq!['\n']
    }
}

/// The content of a chapter once its label lines are gone: the lines that
/// stay, each followed by a line feed, but without the last line feed where
/// the content did not end with one.
pub open spec fn relabelled(content: Seq<char>, kept: Seq<Seq<char>>) -> Seq<char> {
    let text = stacked(kept, kept.len() as int);
    if (content.len() > 0 && content.last() == '\n') || text.len() == 0 {
        text
    } else {
        text.drop_last()
    }
}

/// The number of a chapter for its listings: the first part of its section
/// number, and 0 where it has none.
pub open spec fn chapter_number(number: Option<u32>) -> u32 {
    match number {
        Some(n) => n,
        None => 0,
    }
}

/// The first `n` lines, each followed by a line feed.
pub fn stack_lines(lines: &Vec<String>) -> (out: Vec<char>)
    ensures
        out@ == stacked(views(lines@), lines@.len() as int),
{
    let mut out: Vec<char> = Vec::new();
    let mut i: usize = 0;
    while i < lines.len()
        invariant
            i <= lines.len(),
            out@ == stacked(views(lines@), i as int),
        decreases lines.len() - i,
    {
        extend(&mut out, &str_chars(lines[i].as_str()));
        out.push('\n');
        i += 1;
    }
    out
}

/// The content of a chapter once its label lines are gone.
pub fn relabel(content: &str, kept: &Vec<String>) -> (r: String)
    ensures
        r@ == relabelled(content@, views(kept@)),
{
    let chars = str_chars(content);
    let mut text = stack_lines(kept);
    let ends = chars.len() > 0 && chars[chars.len() - 1] == '\n';
    if !ends && text.len() > 0 {
        text.pop();
    }
    to_string(&text)
}

/// What the preprocessor has collected of a book.
pub struct Collected {
    /// The listing number of every label.
    pub labels: Map<Seq<char>, Seq<char>>,
    /// The number of the next label in the current chapter.
    pub next: int,
    /// The number of the current chapter.
    pub chapter: u32,
    /// The number of every chapter, by the name under which it is referred
    /// to.
    pub numbers: Map<Seq<char>, u32>,
}

/// The scan of the labels of a chapter: the labels are counted from 1
/// where the chapter's number differs from that of the chapter before.
pub open spec fn scan_from(st: Collected, number: Option<u32>, content: Seq<char>) -> LabelScan {
    let n = chapter_number(number);
    let start = LabelScan {
        labels: st.labels,
        next: if n != st.chapter {
            1
        } else {
            st.next
        },
        kept: Seq::empty(),
        fault: None,
    };
    scan_lines(start, n, lines(content), 0)
}

/// The state of the preprocessor while it reads a book.
pub struct CairoBookProcessor {
    /// The listing number of every label.
    pub labels: TextMap<String>,
    /// The number of the next label in the current chapter.
    pub current_label: usize,
    /// The number of the current chapter.
    pub current_chapter: u32,
    /// The number of every chapter, by its name in lower case with hyphens
    /// for spaces.
    pub chapter_numbers: TextMap<u32>,
}

/// The name under which a chapter is referred to: its name in lower case,
/// with a hyphen for every space.
pub open spec fn chapter_key(name: Seq<char>) -> Seq<char> {
    replaced(lowercase_of(name), " "@, "-"@)
}

impl CairoBookProcessor {
    /// The state before a book is read: nothing is collected, and the next
    /// label is the first.
    pub fn new() -> (r: CairoBookProcessor)
        ensures
            r.labels@ == Map::<Seq<char>, String>::empty(),
            r.current_label == 1,
            r.current_chapter == 0,
            r.chapter_numbers@ == Map::<Seq<char>, u32>::empty(),
    {
        CairoBookProcessor {
            labels: TextMap::new(),
            current_label: 1,
            current_chapter: 0,
            chapter_numbers: TextMap::new(),
        }
    }

    /// The scan of the labels that this state stands for, with the lines
    /// kept so far.
    pub open spec fn scan(&self, kept: Seq<Seq<char>>, fault: Option<Fault>) -> LabelScan {
        LabelScan {
            labels: label_texts(self.labels@),
            next: self.current_label as int,
            kept,
            fault,
        }
    }

    /// Takes in one line of a chapter, given the label that it holds, if it
    /// holds one.
    pub fn note_line(&mut self, line: &str, label: Option<String>, kept: &mut Vec<String>) -> (r:
        Result<(), BookError>)
        ensures
            final(self).scan(views(final(kept)@), fault_of(r)) == line_noted(
                old(self).scan(views(old(kept)@), None),
                old(self).current_chapter,
                line@,
                text_of(label),
            ),
            final(self).current_chapter == old(self).current_chapter,
            final(self).chapter_numbers == old(self).chapter_numbers,
    {
        match label {
            None => {
                let ghost before = views(kept@);
                kept.push(String::from_str(line));
                assert(views(kept@) =~= before.push(line@));
                Ok(())
            },
            Some(l) => {
                if self.labels.contains_key(l.as_str()) {
                    Err(BookError::DuplicateLabel(l))
                } else if self.current_label == usize::MAX {
                    Err(BookError::TooManyLabels)
                } else {
                    let mut number = decimal_string(self.current_chapter as u128);
                    number.append("-");
                    number.append(decimal_string(self.current_label as u128).as_str());
                    let ghost before = self.labels@;
                    self.labels.insert(l, number);
                    self.current_label += 1;
                    assert(label_texts(self.labels@) =~= label_texts(before).insert(l@, number@));
                    Ok(())
                }
            },
        }
    }

    /// What this state has collected.
    pub open spec fn collected(&self) -> Collected {
        Collected {
            labels: label_texts(self.labels@),
            next: self.current_label as int,
            chapter: self.current_chapter,
            numbers: self.chapter_numbers@,
        }
    }

    /// The scan of the labels of a chapter from this state.
    pub open spec fn chapter_scan(&self, number: Option<u32>, content: Seq<char>) -> LabelScan {
        scan_from(self.collected(), number, content)
    }

    /// Reads the labels of a chapter: every label gets the number of the
    /// chapter and its own number in the chapter, counted from 1, and the
    /// line that holds it leaves the chapter. A label that is known already
    /// ends the reading with an error; the chapter's content then stays as
    /// it was, and the labels read before stay known.
    pub fn process_chapter_labels(&mut self, chapter: &mut Chapter) -> (r: Result<(), BookError>)
        ensures
            label_texts(final(self).labels@) == old(self).chapter_scan(
                old(chapter).number,
                old(chapter).content@,
            ).labels,
            final(self).current_label == old(self).chapter_scan(
                old(chapter).number,
                old(chapter).content@,
            ).next,
            final(self).current_chapter == chapter_number(old(chapter).number),
            final(self).chapter_numbers == old(self).chapter_numbers,
            fault_of(r) == old(self).chapter_scan(old(chapter).number, old(chapter).content@).fault,
            final(chapter).content@ == if r is Ok {
                relabelled(
                    old(chapter).content@,
                    old(self).chapter_scan(old(chapter).number, old(chapter).content@).kept,
                )
            } else {
                old(chapter).content@
            },
            final(chapter).name == old(chapter).name,
            final(chapter).number == old(chapter).number,
            final(chapter).path == old(chapter).path,
            final(chapter).parent_names == old(chapter).parent_names,
    {
        let n: u32 = match chapter.number {
            Some(n) => n,
            None => 0,
        };
        if n != self.current_chapter {
            self.current_chapter = n;
            self.current_label = 1;
        }
        let ls = text_lines(chapter.content.as_str());
        let mut kept: Vec<String> = Vec::new();
        let ghost goal = old(self).chapter_scan(old(chapter).number, old(chapter).content@);
        assert(views(kept@) =~= Seq::<Seq<char>>::empty());
        let mut i: usize = 0;
        while i < ls.len()
            invariant
                i <= ls.len(),
                views(ls@) == lines(chapter.content@),
                self.current_chapter == n,
                n == chapter_number(old(chapter).number),
                goal == old(self).chapter_scan(old(chapter).number, old(chapter).content@),
                self.chapter_numbers == old(self).chapter_numbers,
                *chapter == *old(chapter),
                goal == scan_lines(self.scan(views(kept@), None), n, views(ls@), i as int),
            decreases ls.len() - i,
        {
            let ghost st = self.scan(views(kept@), None);
            let ghost after = scan_line(st, n, ls@[i as int]@);
            assert(goal == scan_lines(after, n, views(ls@), i + 1));
            let label = match find_label(ls[i].as_str()) {
                Ok(label) => label,
                Err(e) => {
                    return Err(e);
                },
            };
            if let Err(e) = self.note_line(ls[i].as_str(), label, &mut kept) {
                return Err(e);
            }
            i += 1;
        }
        chapter.content = relabel(chapter.content.as_str(), &kept);
        Ok(())
    }

    /// Notes the number of a chapter under the name by which it is referred
    /// to.
    pub fn collect_chapter_number(&mut self, chapter: &Chapter, chapter_counter: u32) -> (r: Result<
        (),
        BookError,
    >)
        ensures
            r is Ok,
            final(self).chapter_numbers@ == old(self).chapter_numbers@.insert(
                chapter_key(chapter.name@),
                chapter_counter,
            ),
            final(self).labels == old(self).labels,
            final(self).current_label == old(self).current_label,
            final(self).current_chapter == old(self).current_chapter,
    {
        let key = replace_text(lowercase(chapter.name.as_str()).as_str(), " ", "-");
        self.chapter_numbers.insert(key, chapter_counter);
        Ok(())
    }
}

/// The text with the references of the matches from index `i` on
/// resolved: every occurrence of a match's whole text gives way to the
/// listing number of the label that the match names. A match that names no
/// label is passed over; a label that is not known is a fault.
pub open spec fn with_labels(
    text: Seq<char>,
    matches: Seq<Seq<Option<Seq<char>>>>,
    i: int,
    labels: Map<Seq<char>, Seq<char>>,
) -> Result<Seq<char>, Fault>
    decreases matches.len() - i,
{
    if i < 0 || i >= matches.len() {
        Ok(text)
    } else {
        let m = matches[i];
        if m.len() > 1 && m[0] is Some && m[1] is Some {
            if labels.contains_key(m[1]->0) {
                with_labels(replaced(text, m[0]->0, labels[m[1]->0]), matches, i + 1, labels)
            } else {
                Err(Fault::MissingLabel(m[1]->0))
            }
        } else {
            with_labels(text, matches, i + 1, labels)
        }
    }
}

/// The text with the chapter references of the matches from index `i` on
/// resolved: every occurrence of a match's whole text gives way to the
/// number of the chapter that the match names.
pub open spec fn with_chapters(
    text: Seq<char>,
    matches: Seq<Seq<Option<Seq<char>>>>,
    i: int,
    numbers: Map<Seq<char>, u32>,
) -> Result<Seq<char>, Fault>
    decreases matches.len() - i,
{
    if i < 0 || i >= matches.len() {
        Ok(text)
    } else {
        let m = matches[i];
        if m.len() > 1 && m[0] is Some && m[1] is Some {
            if numbers.contains_key(m[1]->0) {
                with_chapters(
                    replaced(text, m[0]->0, decimal(numbers[m[1]->0] as nat)),
                    matches,
                    i + 1,
                    numbers,
                )
            } else {
                Err(Fault::MissingChapter(m[1]->0))
            }
        } else {
            with_chapters(text, matches, i + 1, numbers)
        }
    }
}

/// A line with its references resolved: first those to labels, then those
/// to chapters, both as they are found in the line itself.
pub open spec fn resolved_line(
    line: Seq<char>,
    labels: Map<Seq<char>, Seq<char>>,
    numbers: Map<Seq<char>, u32>,
) -> Result<Seq<char>, Fault> {
    match regex_captures(ref_pattern(), line) {
        None => Err(Fault::BadPattern),
        Some(refs) => match with_labels(line, refs, 0, labels) {
            Err(f) => Err(f),
            Ok(text) => match regex_captures(chap_pattern(), line) {
                None => Err(Fault::BadPattern),
                Some(chaps) => with_chapters(text, chaps, 0, numbers),
            },
        },
    }
}

/// How far the references of a chapter have been resolved.
pub struct RefScan {
    /// Whether the last line read stands in a code block.
    pub in_code: bool,
    /// Whether an empty line that comes next is left out.
    pub skip_empty: bool,
    /// The new content so far.
    pub out: Seq<char>,
    /// Why resolving stopped, if it did.
    pub fault: Option<Fault>,
}

/// The scan after one line. A line that starts with three backticks
/// opens or closes a code block. A tag line in a code block is left out,
/// and so is an empty line directly behind it. Every other line is written
/// with its references resolved and a line feed behind it.
pub open spec fn ref_line(
    st: RefScan,
    line: Seq<char>,
    labels: Map<Seq<char>, Seq<char>>,
    numbers: Map<Seq<char>, u32>,
) -> RefScan {
    let in_code = st.in_code != has_prefix(line, "```"@);
    if in_code && is_tag_line(line) {
        RefScan { in_code, skip_empty: true, out: st.out, fault: None }
    } else if st.skip_empty && line.len() == 0 {
        RefScan { in_code, skip_empty: false, out: st.out, fault: None }
    } else {
        match resolved_line(line, labels, numbers) {
            Ok(text) => RefScan {
                in_code,
                skip_empty: false,
                out: st.out + text + seq!['\n'],
                fault: None,
            },
            Err(f) => RefScan { in_code, skip_empty: false, out: st.out, fault: Some(f) },
        }
    }
}

/// The scan after the lines from index `i` on, or up to the first fault.
pub open spec fn ref_lines(
    st: RefScan,
    lines: Seq<Seq<char>>,
    i: int,
    labels: Map<Seq<char>, Seq<char>>,
    numbers: Map<Seq<char>, u32>,
) -> RefScan
    decreases lines.len() - i,
{
    if st.fault is Some || i < 0 || i >= lines.len() {
        st
    } else {
        ref_lines(ref_line(st, lines[i], labels, numbers), lines, i + 1, labels, numbers)
    }
}

/// The scan of a whole chapter.
pub open spec fn chapter_refs(
    content: Seq<char>,
    labels: Map<Seq<char>, Seq<char>>,
    numbers: Map<Seq<char>, u32>,
) -> RefScan {
    ref_lines(
        RefScan { in_code: false, skip_empty: false, out: Seq::empty(), fault: None },
        lines(content),
        0,
        labels,
        numbers,
    )
}

/// A result, as plain values.
pub open spec fn text_result(r: Result<String, BookError>) -> Result<Seq<char>, Fault> {
    match r {
        Ok(s) => Ok(s@),
        Err(e) => Err(e@),
    }
}

impl CairoBookProcessor {
    /// The text with the references to labels resolved that the matches
    /// hold.
    pub fn substitute_labels(&self, text: String, matches: &Vec<Vec<Option<String>>>) -> (r:
        Result<String, BookError>)
        ensures
            text_result(r) == with_labels(
                text@,
                match_views(matches@),
                0,
                label_texts(self.labels@),
            ),
    {
        let ghost ms = match_views(matches@);
        let ghost goal = with_labels(text@, ms, 0, label_texts(self.labels@));
        let mut cur = text;
        let mut i: usize = 0;
        while i < matches.len()
            invariant
                i <= matches.len(),
                ms == match_views(matches@),
                goal == with_labels(text@, ms, 0, label_texts(self.labels@)),
                goal == with_labels(cur@, ms, i as int, label_texts(self.labels@)),
            decreases matches.len() - i,
        {
            let m = &matches[i];
            if m.len() > 1 {
                match (&m[0], &m[1]) {
                    (Some(whole), Some(name)) => {
                        match self.labels.get(name.as_str()) {
                            Some(number) => {
                                cur = replace_text(cur.as_str(), whole.as_str(), number.as_str());
                            },
                            None => {
                                return Err(BookError::MissingLabel(name.clone()));
                            },
                        }
                    },
                    _ => {},
                }
            }
            i += 1;
        }
        Ok(cur)
    }

    /// The text with the references to chapters resolved that the matches
    /// hold.
    pub fn substitute_chapters(&self, text: String, matches: &Vec<Vec<Option<String>>>) -> (r:
        Result<String, BookError>)
        ensures
            text_result(r) == with_chapters(
                text@,
                match_views(matches@),
                0,
                self.chapter_numbers@,
            ),
    {
        let ghost ms = match_views(matches@);
        let ghost goal = with_chapters(text@, ms, 0, self.chapter_numbers@);
        let mut cur = text;
        let mut i: usize = 0;
        while i < matches.len()
            invariant
                i <= matches.len(),
                ms == match_views(matches@),
                goal == with_chapters(text@, ms, 0, self.chapter_numbers@),
                goal == with_chapters(cur@, ms, i as int, self.chapter_numbers@),
            decreases matches.len() - i,
        {
            let m = &matches[i];
            if m.len() > 1 {
                match (&m[0], &m[1]) {
                    (Some(whole), Some(name)) => {
                        match self.chapter_numbers.get(name.as_str()) {
                            Some(number) => {
                                cur = replace_text(
                                    cur.as_str(),
                                    whole.as_str(),
                                    decimal_string(*number as u128).as_str(),
                                );
                            },
                            None => {
                                return Err(BookError::MissingChapter(name.clone()));
                            },
                        }
                    },
                    _ => {},
                }
            }
            i += 1;
        }
        Ok(cur)
    }

    /// A line with its references resolved.
    pub fn resolve_line(&self, line: &str) -> (r: Result<String, BookError>)
        ensures
            text_result(r) == resolved_line(
                line@,
                label_texts(self.labels@),
                self.chapter_numbers@,
            ),
    {
        match captures("\\{\\{#ref\\s*([\\w-]+)\\s*\\}\\}", line) {
            None => Err(BookError::BadPattern),
            Some(refs) => match self.substitute_labels(String::from_str(line), &refs) {
                Err(e) => Err(e),
                Ok(text) => match captures("\\{\\{#chap\\s*([\\w-]+)\\s*\\}\\}", line) {
                    None => Err(BookError::BadPattern),
                    Some(chaps) => self.substitute_chapters(text, &chaps),
                },
            },
        }
    }

    /// Resolves the references of a chapter and takes the tag lines out of
    /// its code blocks. A reference to a label or a chapter that is not
    /// known ends this with an error, and the chapter's content stays as it
    /// was.
    pub fn process_chapter_references(&self, chapter: &mut Chapter) -> (r: Result<(), BookError>)
        ensures
            fault_of(r) == chapter_refs(
                old(chapter).content@,
                label_texts(self.labels@),
                self.chapter_numbers@,
            ).fault,
            final(chapter).content@ == if r is Ok {
                chapter_refs(
                    old(chapter).content@,
                    label_texts(self.labels@),
                    self.chapter_numbers@,
                ).out
            } else {
                old(chapter).content@
            },
            final(chapter).name == old(chapter).name,
            final(chapter).number == old(chapter).number,
            final(chapter).path == old(chapter).path,
            final(chapter).parent_names == old(chapter).parent_names,
    {
        let ls = text_lines(chapter.content.as_str());
        let fence = str_chars("```");
        let mut out: Vec<char> = Vec::new();
        let mut in_code = false;
        let mut skip_empty = false;
        let ghost labels = label_texts(self.labels@);
        let ghost numbers = self.chapter_numbers@;
        let ghost goal = chapter_refs(chapter.content@, labels, numbers);
        let mut i: usize = 0;
        while i < ls.len()
            invariant
                i <= ls.len(),
                views(ls@) == lines(chapter.content@),
                fence@ == "```"@,
                labels == label_texts(self.labels@),
                numbers == self.chapter_numbers@,
                *chapter == *old(chapter),
                goal == chapter_refs(old(chapter).content@, labels, numbers),
                goal == ref_lines(
                    RefScan { in_code, skip_empty, out: out@, fault: None },
                    views(ls@),
                    i as int,
                    labels,
                    numbers,
                ),
            decreases ls.len() - i,
        {
            let ghost st = RefScan { in_code, skip_empty, out: out@, fault: None };
            let ghost after = ref_line(st, ls@[i as int]@, labels, numbers);
            assert(goal == ref_lines(after, views(ls@), i + 1, labels, numbers));
            let line = str_chars(ls[i].as_str());
            if starts_with(&line, &fence) {
                in_code = !in_code;
            }
            if in_code && tag_prefix(&line).is_some() {
                skip_empty = true;
            } else if skip_empty && line.len() == 0 {
                skip_empty = false;
            } else {
                skip_empty = false;
                match self.resolve_line(ls[i].as_str()) {
                    Err(e) => {
                        return Err(e);
                    },
                    Ok(text) => {
                        let ghost before = out@;
                        extend(&mut out, &str_chars(text.as_str()));
                        out.push('\n');
                        assert(out@ == before + text@ + seq!['\n']);
                    },
                }
            }
            i += 1;
        }
        chapter.content = to_string(&out);
        Ok(())
    }
}

/// What is collected after a chapter: its labels, and its number under
/// the name by which it is referred to.
pub open spec fn after_chapter(st: Collected, ch: Chapter) -> Collected {
    let scan = scan_from(st, ch.number, ch.content@);
    Collected {
        labels: scan.labels,
        next: scan.next,
        chapter: chapter_number(ch.number),
        numbers: st.numbers.insert(chapter_key(ch.name@), chapter_number(ch.number)),
    }
}

/// What is collected after the first `n` items of a book.
pub open spec fn after_items(st: Collected, items: Seq<BookItem>, n: int) -> Collected
    decreases n,
{
    if n <= 0 {
        st
    } else {
        let before = after_items(st, items, n - 1);
        match items[n - 1] {
            BookItem::Chapter(ch) => after_chapter(before, ch),
            _ => before,
        }
    }
}

/// The content of a chapter after its labels were collected: without the
/// label lines, or unchanged where collecting ran into a fault.
pub open spec fn content_after_labels(
    st: Collected,
    number: Option<u32>,
    content: Seq<char>,
) -> Seq<char> {
    let scan = scan_from(st, number, content);
    if scan.fault is None {
        relabelled(content, scan.kept)
    } else {
        content
    }
}

/// The content of a chapter after its references were resolved, or
/// unchanged where resolving ran into a fault.
pub open spec fn content_after_refs(st: Collected, content: Seq<char>) -> Seq<char> {
    let scan = chapter_refs(content, st.labels, st.numbers);
    if scan.fault is None {
        scan.out
    } else {
        content
    }
}

/// The content of a chapter of a processed book: its labels are collected
/// with what the items before it gave, and its references are resolved with
/// what the whole book gave.
pub open spec fn processed_content(
    start: Collected,
    items: Seq<BookItem>,
    i: int,
    ch: Chapter,
) -> Seq<char> {
    content_after_refs(
        after_items(start, items, items.len() as int),
        content_after_labels(after_items(start, items, i), ch.number, ch.content@),
    )
}

/// The warnings of collecting the labels of the first `n` items: one for
/// each chapter whose labels could not be read.
pub open spec fn label_warnings(start: Collected, items: Seq<BookItem>, n: int) -> Seq<Seq<char>>
    decreases n,
{
    if n <= 0 {
        Seq::empty()
    } else {
        let before = label_warnings(start, items, n - 1);
        match items[n - 1] {
            BookItem::Chapter(ch) => match scan_from(
                after_items(start, items, n - 1),
                ch.number,
                ch.content@,
            ).fault {
                Some(f) => before.push(warning("labels"@, ch.name@, f)),
                None => before,
            },
            _ => before,
        }
    }
}

/// The content that the references of the item at `i` are resolved in: for
/// `Some(start)` its content after the labels were collected from `start`,
/// else its content as it is.
pub open spec fn content_for_refs(
    labelled: Option<Collected>,
    items: Seq<BookItem>,
    i: int,
    ch: Chapter,
) -> Seq<char> {
    match labelled {
        Some(start) => content_after_labels(after_items(start, items, i), ch.number, ch.content@),
        None => ch.content@,
    }
}

/// The warnings of resolving the references of the first `n` items with
/// what `st` holds: one for each chapter with a reference that could not be
/// resolved.
pub open spec fn ref_warnings(
    st: Collected,
    labelled: Option<Collected>,
    items: Seq<BookItem>,
    n: int,
) -> Seq<Seq<char>>
    decreases n,
{
    if n <= 0 {
        Seq::empty()
    } else {
        let before = ref_warnings(st, labelled, items, n - 1);
        match items[n - 1] {
            BookItem::Chapter(ch) => match chapter_refs(
                content_for_refs(labelled, items, n - 1, ch),
                st.labels,
                st.numbers,
            ).fault {
                Some(f) => before.push(warning("references"@, ch.name@, f)),
                None => before,
            },
            _ => before,
        }
    }
}

/// The warnings of processing a book: those of collecting the labels, then
/// those of resolving the references.
pub open spec fn book_warnings(start: Collected, items: Seq<BookItem>) -> Seq<Seq<char>> {
    label_warnings(start, items, items.len() as int) + ref_warnings(
        after_items(start, items, items.len() as int),
        Some(start),
        items,
        items.len() as int,
    )
}

/// Whether `after` is `before` with nothing changed but the content of a
/// chapter, which is `content` of the chapter before.
pub open spec fn same_but_content(
    before: BookItem,
    after: BookItem,
    content: spec_fn(Chapter) -> Seq<char>,
) -> bool {
    match before {
        BookItem::Chapter(ch) => after matches BookItem::Chapter(nch) && nch.name == ch.name
            && nch.number == ch.number && nch.path == ch.path && nch.parent_names
            == ch.parent_names && nch.content@ == content(ch),
        _ => after == before,
    }
}

/// Takes the items out of `items`, the last first.
fn take_reversed(items: &mut Vec<BookItem>) -> (stack: Vec<BookItem>)
    ensures
        final(items)@.len() == 0,
        stack@ == old(items)@.reverse(),
{
    let mut stack: Vec<BookItem> = Vec::new();
    loop
        invariant_except_break
            stack@ == old(items)@.subrange(items@.len() as int, old(items)@.len() as int).reverse(),
        invariant
            items@ == old(items)@.take(items@.len() as int),
            items@.len() <= old(items)@.len(),
        ensures
            items@.len() == 0,
            stack@ == old(items)@.reverse(),
        decreases items@.len(),
    {
        match items.pop() {
            Some(item) => {
                stack.push(item);
            },
            None => {
                break ;
            },
        }
    }
    stack
}

/// The warning for a chapter that could not be processed.
pub open spec fn warning(what: Seq<char>, name: Seq<char>, fault: Fault) -> Seq<char> {
    "Error processing "@ + what + " in chapter '"@ + name + "': "@ + fault_message(fault)
}

/// The warning for a chapter that could not be processed.
pub fn warn(what: &str, name: &str, e: &BookError) -> (r: String)
    ensures
        r@ == warning(what@, name@, e@),
{
    let mut r = concat3("Error processing ", what, " in chapter '");
    r.append(name);
    r.append("': ");
    r.append(e.message().as_str());
    r
}

impl CairoBookProcessor {
    /// Collects the labels and the chapter numbers of a book, item by item
    /// in the order of the book. A chapter whose labels cannot be read
    /// keeps its content and gives a warning; its number is noted all the
    /// same. This never fails: the result holds the warnings.
    pub fn collect(&mut self, book: &mut Book) -> (r: Result<Vec<String>, BookError>)
        ensures
            r matches Ok(w) && views(w@) == label_warnings(
                old(self).collected(),
                old(book).sections@,
                old(book).sections@.len() as int,
            ),
            final(self).collected() == after_items(
                old(self).collected(),
                old(book).sections@,
                old(book).sections@.len() as int,
            ),
            final(book).sections@.len() == old(book).sections@.len(),
            forall|i: int|
                0 <= i < old(book).sections@.len() ==> same_but_content(
                    old(book).sections@[i],
                    #[trigger] final(book).sections@[i],
                    |ch: Chapter|
                        content_after_labels(
                            after_items(old(self).collected(), old(book).sections@, i),
                            ch.number,
                            ch.content@,
                        ),
                ),
    {
        let mut warnings: Vec<String> = Vec::new();
        let mut stack = take_reversed(&mut book.sections);
        let ghost items = old(book).sections@;
        let ghost start = old(self).collected();
        loop
            invariant
                items == old(book).sections@,
                start == old(self).collected(),
                book.sections@.len() + stack@.len() == items.len(),
                forall|j: int| 0 <= j < stack@.len() ==> stack@[j] == items[items.len() - 1 - j],
                self.collected() == after_items(start, items, book.sections@.len() as int),
                views(warnings@) == label_warnings(start, items, book.sections@.len() as int),
                forall|i: int|
                    0 <= i < book.sections@.len() ==> same_but_content(
                        items[i],
                        #[trigger] book.sections@[i],
                        |ch: Chapter|
                            content_after_labels(
                                after_items(start, items, i),
                                ch.number,
                                ch.content@,
                            ),
                    ),
            ensures
                book.sections@.len() == items.len(),
            decreases stack@.len(),
        {
            match stack.pop() {
                None => {
                    break ;
                },
                Some(item) => {
                    let new_item = match item {
                        BookItem::Chapter(ch) => {
                            let mut ch = ch;
                            if let Err(e) = self.process_chapter_labels(&mut ch) {
                                warnings.push(warn("labels", ch.name.as_str(), &e));
                            }
                            let number = self.current_chapter;
                            let _ = self.collect_chapter_number(&ch, number);
                            BookItem::Chapter(ch)
                        },
                        other => other,
                    };
                    book.sections.push(new_item);
                },
            }
        }
        Ok(warnings)
    }

    /// Resolves the references of every chapter of a book. A chapter with
    /// a reference that cannot be resolved keeps its content and gives a
    /// warning. This never fails: the result holds the warnings.
    pub fn process_references(&self, book: &mut Book) -> (r: Result<Vec<String>, BookError>)
        ensures
            r matches Ok(w) && views(w@) == ref_warnings(
                self.collected(),
                None,
                old(book).sections@,
                old(book).sections@.len() as int,
            ),
            final(book).sections@.len() == old(book).sections@.len(),
            forall|i: int|
                0 <= i < old(book).sections@.len() ==> same_but_content(
                    old(book).sections@[i],
                    #[trigger] final(book).sections@[i],
                    |ch: Chapter| content_after_refs(self.collected(), ch.content@),
                ),
    {
        let mut warnings: Vec<String> = Vec::new();
        let mut stack = take_reversed(&mut book.sections);
        let ghost items = old(book).sections@;
        loop
            invariant
                items == old(book).sections@,
                views(warnings@) == ref_warnings(
                    self.collected(),
                    None,
                    items,
                    book.sections@.len() as int,
                ),
                book.sections@.len() + stack@.len() == items.len(),
                forall|j: int| 0 <= j < stack@.len() ==> stack@[j] == items[items.len() - 1 - j],
                forall|i: int|
                    0 <= i < book.sections@.len() ==> same_but_content(
                        items[i],
                        #[trigger] book.sections@[i],
                        |ch: Chapter| content_after_refs(self.collected(), ch.content@),
                    ),
            ensures
                book.sections@.len() == items.len(),
            decreases stack@.len(),
        {
            match stack.pop() {
                None => {
                    break ;
                },
                Some(item) => {
                    let new_item = match item {
                        BookItem::Chapter(ch) => {
                            let mut ch = ch;
                            if let Err(e) = self.process_chapter_references(&mut ch) {
                                warnings.push(warn("references", ch.name.as_str(), &e));
                            }
                            BookItem::Chapter(ch)
                        },
                        other => other,
                    };
                    book.sections.push(new_item);
                },
            }
        }
        Ok(warnings)
    }

    /// Collects the labels and chapter numbers of a book, then resolves its
    /// references. Returns the warnings of both passes.
    pub fn process_book(&mut self, book: &mut Book) -> (r: Result<Vec<String>, BookError>)
        ensures
            r matches Ok(w) && views(w@) == book_warnings(
                old(self).collected(),
                old(book).sections@,
            ),
            final(self).collected() == after_items(
                old(self).collected(),
                old(book).sections@,
                old(book).sections@.len() as int,
            ),
            final(book).sections@.len() == old(book).sections@.len(),
            forall|i: int|
                0 <= i < old(book).sections@.len() ==> same_but_content(
                    old(book).sections@[i],
                    #[trigger] final(book).sections@[i],
                    |ch: Chapter|
                        processed_content(old(self).collected(), old(book).sections@, i, ch),
                ),
    {
        let mut warnings = match self.collect(book) {
            Ok(w) => w,
            Err(e) => {
                return Err(e);
            },
        };
        let ghost mid = book.sections@;
        let mut more = match self.process_references(book) {
            Ok(w) => w,
            Err(e) => {
                return Err(e);
            },
        };
        warnings.append(&mut more);
        proof {
            lemma_ref_warnings_after_labels(
                self.collected(),
                old(self).collected(),
                old(book).sections@,
                mid,
                mid.len() as int,
            );
        }
        Ok(warnings)
    }
}

proof fn lemma_ref_warnings_after_labels(
    st: Collected,
    start: Collected,
    items: Seq<BookItem>,
    mid: Seq<BookItem>,
    n: int,
)
    requires
        0 <= n <= items.len(),
        mid.len() == items.len(),
        forall|i: int|
            0 <= i < items.len() ==> same_but_content(
                items[i],
                #[trigger] mid[i],
                |ch: Chapter|
                    content_after_labels(after_items(start, items, i), ch.number, ch.content@),
            ),
    ensures
        ref_warnings(st, None, mid, n) == ref_warnings(st, Some(start), items, n),
    decreases n,
{
    if n > 0 {
        lemma_ref_warnings_after_labels(st, start, items, mid, n - 1);
    }
}

/// What is collected before a book is read.
pub open spec fn nothing_collected() -> Collected {
    Collected { labels: Map::empty(), next: 1, chapter: 0, numbers: Map::empty() }
}

/// The preprocessor.
pub struct Cairo;

impl Cairo {
    /// The preprocessor. It holds no state: every run starts afresh.
    pub fn new() -> Cairo {
        Cairo
    }

    /// The name of the preprocessor.
    pub fn name(&self) -> (r: &'static str)
        ensures
            r@ == "cairo-preprocessor"@,
    {
        "cairo-preprocessor"
    }

    /// Processes a book from a fresh state. Returns the warnings.
    pub fn run(&self, book: &mut Book) -> (r: Result<Vec<String>, BookError>)
        ensures
            r matches Ok(w) && views(w@) == book_warnings(nothing_collected(), old(book).sections@),
            final(book).sections@.len() == old(book).sections@.len(),
            forall|i: int|
                0 <= i < old(book).sections@.len() ==> same_but_content(
                    old(book).sections@[i],
                    #[trigger] final(book).sections@[i],
                    |ch: Chapter|
                        processed_content(nothing_collected(), old(book).sections@, i, ch),
                ),
    {
        let mut processor = CairoBookProcessor::new();
        assert(label_texts(processor.labels@) =~= Map::<Seq<char>, Seq<char>>::empty());
        processor.process_book(book)
    }

    /// Every renderer is supported but the one named `not-supported`.
    pub fn supports_renderer(&self, renderer: &str) -> (r: bool)
        ensures
            r == (renderer@ != "not-supported"@),
    {
        !str_eq(renderer, "not-supported")
    }
}

impl Default for Cairo {
    fn default() -> Cairo {
        Cairo
    }
}

} // verus!
