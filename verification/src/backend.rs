//! The book backend: takes the programs out of the code blocks of a book
//! and says into which directories each is written, one directory for each
//! check that the program is meant to pass.

use crate::book::{Book, BookItem, Chapter};
use crate::pattern::{captures, match_views, regex_captures};
use crate::tags::{TagSet, Tags};
use crate::text::{contains, decimal, decimal_string, has_substring, str_chars, text_of};
use pulldown_cmark::{CodeBlockKind, Event, Parser, Tag};
use vstd::prelude::*;

verus! {

/// The settings of the backend.
#[derive(Debug)]
pub struct CairoConfig {
    pub output_dir: String,
}

impl Default for CairoConfig {
    fn default() -> (r: CairoConfig)
        ensures
            r.output_dir@ == Seq::<char>::empty(),
    {
        CairoConfig { output_dir: String::new() }
    }
}

/// What the backend reads of a markdown event.
#[derive(Debug)]
pub enum MarkEvent {
    /// A fenced code block starts; the text is its info string.
    FencedStart(String),
    /// A piece of text.
    Text(String),
    /// A code block ends.
    CodeEnd,
    /// Any other event.
    Other,
}

/// A markdown event, as a plain value.
pub enum Mark {
    FencedStart(Seq<char>),
    Text(Seq<char>),
    CodeEnd,
    Other,
}

impl View for MarkEvent {
    type V = Mark;

    open spec fn view(&self) -> Mark {
        match *self {
            MarkEvent::FencedStart(s) => Mark::FencedStart(s@),
            MarkEvent::Text(s) => Mark::Text(s@),
            MarkEvent::CodeEnd => Mark::CodeEnd,
            MarkEvent::Other => Mark::Other,
        }
    }
}

/// The events, as plain values.
pub open spec fn marks(events: Seq<MarkEvent>) -> Seq<Mark> {
    Seq::new(events.len(), |i: int| events[i]@)
}

/// The events that `pulldown_cmark::Parser::new` yields for a text, each
/// as far as the backend reads it.
pub uninterp spec fn markdown_events(content: Seq<char>) -> Seq<Mark>;

/// Runs `pulldown_cmark::Parser::new` over the text and copies of each
/// event what the backend reads: the info string of a fenced code block
/// that starts, a text, the end of a code block; every other event counts as
/// `Other`. The contract only names the result.
#[verifier::external_body]
pub(crate) fn parse_markdown(content: &str) -> (r: Vec<MarkEvent>)
    ensures
        marks(r@) == markdown_events(content@),
{
    Parser::new(content).map(
        |e|
            match e {
                Event::Start(Tag::CodeBlock(CodeBlockKind::Fenced(info))) => MarkEvent::FencedStart(
                    info.to_string(),
                ),
                Event::Text(text) => MarkEvent::Text(text.to_string()),
                Event::End(Tag::CodeBlock(_)) => MarkEvent::CodeEnd,
                _ => MarkEvent::Other,
            },
    ).collect()
}

/// The directories into which programs are written.
#[derive(Clone, Copy, Debug, PartialEq, Eq, Hash, Structural)]
pub enum Dir {
    Compilable,
    Runnable,
    Testable,
    Contracts,
    Formats,
}

impl Dir {
    /// The name of the directory.
    pub fn name(&self) -> (r: &'static str)
        ensures
            r@ == match *self {
                Dir::Compilable => "compilable"@,
                Dir::Runnable => "runnable"@,
                Dir::Testable => "testable"@,
                Dir::Contracts => "contracts"@,
                Dir::Formats => "formats"@,
            },
    {
        match self {
            Dir::Compilable => "compilable",
            Dir::Runnable => "runnable",
            Dir::Testable => "testable",
            Dir::Contracts => "contracts",
            Dir::Formats => "formats",
        }
    }
}

/// One file to write.
#[derive(Debug)]
pub struct Extract {
    pub dir: Dir,
    pub file_name: String,
    pub content: String,
}

/// One file to write, as a plain value.
pub struct ExtractView {
    pub dir: Dir,
    pub file_name: Seq<char>,
    pub content: Seq<char>,
}

impl View for Extract {
    type V = ExtractView;

    open spec fn view(&self) -> ExtractView {
        ExtractView { dir: self.dir, file_name: self.file_name@, content: self.content@ }
    }
}

/// The files, as plain values.
pub open spec fn extract_views(files: Seq<Extract>) -> Seq<ExtractView> {
    Seq::new(files.len(), |i: int| files[i]@)
}

/// The tags that the info string of a code block holds: a tag counts where
/// its token stands anywhere in the string.
pub open spec fn info_tags(info: Seq<char>) -> Set<Tags> {
    Set::new(
        |t: Tags|
            match t {
                Tags::DoesNotCompile => has_substring(info, "does_not_compile"@),
                Tags::DoesNotRun => has_substring(info, "does_not_run"@),
                Tags::IgnoreFormat => has_substring(info, "ignore_format"@),
                Tags::FailingTests => has_substring(info, "test_fails"@),
            },
    )
}

/// Whether the info string marks a block of the book's language.
pub open spec fn is_cairo_info(info: Seq<char>) -> bool {
    has_substring(info, "rust"@)
}

/// The directories into which a program is written, in order: a contract
/// goes to the contracts unless it does not compile; any other program goes
/// to the runnable ones if it has a main function and is not tagged as not
/// running, else to the compilable ones unless it does not compile. A
/// program with tests goes to the testable ones too unless its tests fail,
/// and every program goes to the formats unless its format is ignored.
pub open spec fn dirs_of(text: Seq<char>, tags: Set<Tags>) -> Seq<Dir> {
    let first = if has_substring(text, "#[contract]"@) {
        if !tags.contains(Tags::DoesNotCompile) {
            seq![Dir::Contracts]
        } else {
            Seq::empty()
        }
    } else if !tags.contains(Tags::DoesNotRun) && has_substring(text, "fn main()"@) {
        seq![Dir::Runnable]
    } else if !tags.contains(Tags::DoesNotCompile) {
        seq![Dir::Compilable]
    } else {
        Seq::empty()
    };
    let second = if !tags.contains(Tags::FailingTests) && has_substring(text, "#[test]"@) {
        seq![Dir::Testable]
    } else {
        Seq::empty()
    };
    let third = if !tags.contains(Tags::IgnoreFormat) {
        seq![Dir::Formats]
    } else {
        Seq::empty()
    };
    first + second + third
}

/// The name of the file of a program: the chapter's prefix, an
/// underscore, the number of the program in the chapter and the extension.
pub open spec fn program_file(prefix: Seq<char>, counter: nat) -> Seq<char> {
    prefix + "_"@ + decimal(counter) + ".cairo"@
}

/// The files of one program, one for each directory.
pub open spec fn program_files(
    prefix: Seq<char>,
    counter: nat,
    text: Seq<char>,
    dirs: Seq<Dir>,
) -> Seq<ExtractView> {
    Seq::new(
        dirs.len(),
        |i: int|
            ExtractView { dir: dirs[i], file_name: program_file(prefix, counter), content: text },
    )
}

/// How far the events of a chapter have been read.
pub struct Extraction {
    /// Whether the events stand in a block of the book's language.
    pub in_cairo: bool,
    /// The tags of that block.
    pub tags: Set<Tags>,
    /// The number of the next program.
    pub counter: nat,
    /// The files so far.
    pub files: Seq<ExtractView>,
}

/// The extraction after one event. The start of a fenced block sets the
/// language and the tags, the end of a block clears them. A text in a block
/// of the book's language is a program: it is written to its directories,
/// and the next program gets the next number whether or not this one was
/// written anywhere.
pub open spec fn event_step(st: Extraction, e: Mark, prefix: Seq<char>) -> Extraction {
    match e {
        Mark::FencedStart(info) => Extraction {
            in_cairo: is_cairo_info(info),
            tags: info_tags(info),
            counter: st.counter,
            files: st.files,
        },
        Mark::Text(text) => if st.in_cairo {
            Extraction {
                in_cairo: st.in_cairo,
                tags: st.tags,
                counter: st.counter + 1,
                files: st.files + program_files(prefix, st.counter, text, dirs_of(text, st.tags)),
            }
        } else {
            st
        },
        Mark::CodeEnd => Extraction {
            in_cairo: false,
            tags: Set::empty(),
            counter: st.counter,
            files: st.files,
        },
        Mark::Other => st,
    }
}

/// The extraction after the first `n` events.
pub open spec fn extracted(events: Seq<Mark>, n: int, prefix: Seq<char>) -> Extraction
    decreases n,
{
    if n <= 0 {
        Extraction { in_cairo: false, tags: Set::empty(), counter: 1, files: Seq::empty() }
    } else {
        event_step(extracted(events, n - 1, prefix), events[n - 1], prefix)
    }
}

/// The tags that the info string of a code block holds.
pub fn tags_in_info(info: &str) -> (r: TagSet)
    ensures
        r@ == info_tags(info@),
{
    let chars = str_chars(info);
    TagSet {
        does_not_compile: contains(&chars, &str_chars("does_not_compile")),
        does_not_run: contains(&chars, &str_chars("does_not_run")),
        ignore_format: contains(&chars, &str_chars("ignore_format")),
        failing_tests: contains(&chars, &str_chars("test_fails")),
    }
}

/// The directories into which a program is written.
pub fn program_dirs(text: &str, tags: &TagSet) -> (r: Vec<Dir>)
    ensures
        r@ == dirs_of(text@, tags@),
{
    let chars = str_chars(text);
    let mut r: Vec<Dir> = Vec::new();
    if contains(&chars, &str_chars("#[contract]")) {
        if !tags.contains(Tags::DoesNotCompile) {
            r.push(Dir::Contracts);
        }
    } else if !tags.contains(Tags::DoesNotRun) && contains(&chars, &str_chars("fn main()")) {
        r.push(Dir::Runnable);
    } else if !tags.contains(Tags::DoesNotCompile) {
        r.push(Dir::Compilable);
    }
    if !tags.contains(Tags::FailingTests) && contains(&chars, &str_chars("#[test]")) {
        r.push(Dir::Testable);
    }
    if !tags.contains(Tags::IgnoreFormat) {
        r.push(Dir::Formats);
    }
    r
}

/// The name of the file of a program.
pub fn program_file_name(prefix: &str, counter: u128) -> (r: String)
    ensures
        r@ == program_file(prefix@, counter as nat),
{
    let mut r = String::from_str(prefix);
    r.append("_");
    r.append(decimal_string(counter).as_str());
    r.append(".cairo");
    r
}

/// The files to write for the events of a chapter.
pub fn extract_programs(prefix: &str, events: &Vec<MarkEvent>) -> (files: Vec<Extract>)
    ensures
        extract_views(files@) == extracted(marks(events@), events@.len() as int, prefix@).files,
{
    let mut files: Vec<Extract> = Vec::new();
    let mut in_cairo = false;
    let mut tags = TagSet::new();
    let mut counter: u128 = 1;
    let mut i: usize = 0;
    assert(extract_views(files@) =~= Seq::<ExtractView>::empty());
    while i < events.len()
        invariant
            i <= events.len(),
            counter <= i + 1,
            extracted(marks(events@), i as int, prefix@) == (Extraction {
                in_cairo,
                tags: tags@,
                counter: counter as nat,
                files: extract_views(files@),
            }),
        decreases events.len() - i,
    {
        match &events[i] {
            MarkEvent::FencedStart(info) => {
                in_cairo = contains(&str_chars(info.as_str()), &str_chars("rust"));
                tags = tags_in_info(info.as_str());
            },
            MarkEvent::Text(text) => {
                if in_cairo {
                    let dirs = program_dirs(text.as_str(), &tags);
                    let ghost before = extract_views(files@);
                    let ghost added = program_files(prefix@, counter as nat, text@, dirs@);
                    let mut k: usize = 0;
                    while k < dirs.len()
                        invariant
                            k <= dirs.len(),
                            dirs@ == dirs_of(text@, tags@),
                            added == program_files(prefix@, counter as nat, text@, dirs@),
                            extract_views(files@) == before + added.take(k as int),
                        decreases dirs.len() - k,
                    {
                        let file = Extract {
                            dir: dirs[k],
                            file_name: program_file_name(prefix, counter),
                            content: text.clone(),
                        };
                        let ghost so_far = extract_views(files@);
                        files.push(file);
                        assert(extract_views(files@) =~= so_far.push(added[k as int]));
                        k += 1;
                    }
                    assert(added.take(dirs@.len() as int) == added);
                    counter += 1;
                }
            },
            MarkEvent::CodeEnd => {
                in_cairo = false;
                tags = TagSet::new();
            },
            MarkEvent::Other => {},
        }
        i += 1;
    }
    files
}

/// The files to write for the content of a chapter.
pub fn process_chapter(prefix: &str, content: &str) -> (files: Vec<Extract>)
    ensures
        extract_views(files@) == extracted(
            markdown_events(content@),
            markdown_events(content@).len() as int,
            prefix@,
        ).files,
{
    let events = parse_markdown(content);
    extract_programs(prefix, &events)
}

/// The pattern of the file name of a chapter: `ch`, two digits, a hyphen,
/// two digits, a hyphen and the rest.
pub open spec fn chapter_file_pattern() -> Seq<char> {
    "^ch(\\d{2})-(\\d{2})-(.*)$"@
}

/// The prefix that the first of the matches gives: `ch`, its first group,
/// an underscore and its second group.
pub open spec fn prefix_of_matches(ms: Seq<Seq<Option<Seq<char>>>>) -> Option<Seq<char>> {
    if ms.len() > 0 && ms[0].len() > 2 && ms[0][1] is Some && ms[0][2] is Some {
        Some("ch"@ + ms[0][1]->0 + "_"@ + ms[0][2]->0)
    } else {
        None
    }
}

/// The prefix of the files of a chapter, from the chapter's path: `None`
/// where the path does not match the pattern of a chapter's file name, or
/// the pattern is refused.
pub open spec fn prefix_of(path: Seq<char>) -> Option<Seq<char>> {
    match regex_captures(chapter_file_pattern(), path) {
        Some(ms) => prefix_of_matches(ms),
        None => None,
    }
}

/// The prefix that the first of the matches gives.
pub fn prefix_from_matches(matches: &Vec<Vec<Option<String>>>) -> (r: Option<String>)
    ensures
        text_of(r) == prefix_of_matches(match_views(matches@)),
{
    if matches.len() > 0 && matches[0].len() > 2 {
        match (&matches[0][1], &matches[0][2]) {
            (Some(c), Some(s)) => {
                let mut r = String::from_str("ch");
                r.append(c.as_str());
                r.append("_");
                r.append(s.as_str());
                Some(r)
            },
            _ => None,
        }
    } else {
        None
    }
}

/// The prefix of the files of a chapter; `None` for a chapter without a
/// path, or with a path that is not that of a chapter's file.
pub fn chapter_prefix_from_name(chapter: &Chapter) -> (r: Option<String>)
    ensures
        text_of(r) == match chapter.path {
            Some(p) => prefix_of(p@),
            None => None,
        },
{
    match &chapter.path {
        Some(p) => match captures("^ch(\\d{2})-(\\d{2})-(.*)$", p.as_str()) {
            Some(ms) => prefix_from_matches(&ms),
            None => None,
        },
        None => None,
    }
}

/// The files of one item of a book: those of its programs if it is a
/// chapter whose path gives a prefix, else none.
pub open spec fn item_files(item: BookItem) -> Seq<ExtractView> {
    match item {
        BookItem::Chapter(ch) => match ch.path {
            Some(p) => match prefix_of(p@) {
                Some(prefix) => extracted(
                    markdown_events(ch.content@),
                    markdown_events(ch.content@).len() as int,
                    prefix,
                ).files,
                None => Seq::empty(),
            },
            None => Seq::empty(),
        },
        _ => Seq::empty(),
    }
}

/// The files of the first `n` items of a book.
pub open spec fn book_files(items: Seq<BookItem>, n: int) -> Seq<ExtractView>
    decreases n,
{
    if n <= 0 {
        Seq::empty()
    } else {
        book_files(items, n - 1) + item_files(items[n - 1])
    }
}

/// The files to write for a book: those of every chapter whose path gives
/// a prefix, in the order of the book.
pub fn process_chapters(book: &Book) -> (files: Vec<Extract>)
    ensures
        extract_views(files@) == book_files(book.sections@, book.sections@.len() as int),
{
    let mut files: Vec<Extract> = Vec::new();
    let mut i: usize = 0;
    while i < book.sections.len()
        invariant
            i <= book.sections.len(),
            extract_views(files@) == book_files(book.sections@, i as int),
        decreases book.sections.len() - i,
    {
        if let BookItem::Chapter(chapter) = &book.sections[i] {
            if let Some(prefix) = chapter_prefix_from_name(chapter) {
                let mut more = process_chapter(prefix.as_str(), chapter.content.as_str());
                files.append(&mut more);
            }
        }
        i += 1;
    }
    files
}

/// Whether a build is the default one, whose programs are extracted: its
/// destination holds `/book/cairo`.
pub fn is_default_build(destination: &str) -> (r: bool)
    ensures
        r == has_substring(destination@, "/book/cairo"@),
{
    contains(&str_chars(destination), &str_chars("/book/cairo"))
}

} // verus!
