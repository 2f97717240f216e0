//! Tags: the annotations in the leading comment block of a listing that
//! override which checks apply to it.
//!
//! A tag line starts with `//`, then optional whitespace, `TAG` or `TAGS`,
//! optional whitespace, an optional colon and optional whitespace. What
//! follows is a comma-separated list of tokens. The tag block is the run of
//! tag lines at the very start of the file: the first line that is no tag
//! line ends it for good.

use crate::text::{
    chars_eq, chars_string, lines, rows, skip_whitespace, skip_ws, slice, split, split_chars,
    split_lines, str_chars, to_strings, trim, trimmed, views,
};
use vstd::prelude::*;

verus! {

/// An annotation that overrides which checks apply to a listing.
#[derive(Clone, Copy, Debug, PartialEq, Eq, Hash, Structural)]
pub enum Tags {
    DoesNotCompile,
    DoesNotRun,
    IgnoreFormat,
    FailingTests,
}

/// The tag that a token names, if it names one.
pub open spec fn tag_of(token: Seq<char>) -> Option<Tags> {
    if token == "does_not_compile"@ {
        Some(Tags::DoesNotCompile)
    } else if token == "does_not_run"@ {
        Some(Tags::DoesNotRun)
    } else if token == "ignore_format"@ {
        Some(Tags::IgnoreFormat)
    } else if token == "test_fails"@ {
        Some(Tags::FailingTests)
    } else {
        None
    }
}

/// The tag that a token names, if it names one.
pub fn tag_from_chars(token: &Vec<char>) -> (r: Option<Tags>)
    ensures
        r == tag_of(token@),
{
    if chars_eq(token, &str_chars("does_not_compile")) {
        Some(Tags::DoesNotCompile)
    } else if chars_eq(token, &str_chars("does_not_run")) {
        Some(Tags::DoesNotRun)
    } else if chars_eq(token, &str_chars("ignore_format")) {
        Some(Tags::IgnoreFormat)
    } else if chars_eq(token, &str_chars("test_fails")) {
        Some(Tags::FailingTests)
    } else {
        None
    }
}

impl Tags {
    /// The tag that `tag` names exactly; unknown tokens name none.
    pub fn from_str(tag: &str) -> (r: Option<Tags>)
        ensures
            r == tag_of(tag@),
    {
        tag_from_chars(&str_chars(tag))
    }

    /// The token that names this tag.
    pub fn as_str(&self) -> (r: &'static str)
        ensures
            tag_of(r@) == Some(*self),
    {
        proof {
            reveal_strlit("does_not_compile");
            reveal_strlit("does_not_run");
            reveal_strlit("ignore_format");
            reveal_strlit("test_fails");
            assert("test_fails"@.len() != "does_not_run"@.len());
            assert("test_fails"@.len() != "ignore_format"@.len());
        }
        match self {
            Tags::DoesNotCompile => "does_not_compile",
            Tags::DoesNotRun => "does_not_run",
            Tags::IgnoreFormat => "ignore_format",
            Tags::FailingTests => "test_fails",
        }
    }
}

/// A set of tags.
#[derive(Clone, Copy, Debug, PartialEq, Eq, Structural)]
pub struct TagSet {
    pub does_not_compile: bool,
    pub does_not_run: bool,
    pub ignore_format: bool,
    pub failing_tests: bool,
}

impl View for TagSet {
    type V = Set<Tags>;

    open spec fn view(&self) -> Set<Tags> {
        Set::new(
            |t: Tags|
                match t {
                    Tags::DoesNotCompile => self.does_not_compile,
                    Tags::DoesNotRun => self.does_not_run,
                    Tags::IgnoreFormat => self.ignore_format,
                    Tags::FailingTests => self.failing_tests,
                },
        )
    }
}

impl TagSet {
    /// The empty set.
    pub fn new() -> (r: TagSet)
        ensures
            r@ == Set::<Tags>::empty(),
    {
        TagSet {
            does_not_compile: false,
            does_not_run: false,
            ignore_format: false,
            failing_tests: false,
        }
    }

    /// Whether `tag` is a member.
    pub fn contains(&self, tag: Tags) -> (r: bool)
        ensures
            r == self@.contains(tag),
    {
        match tag {
            Tags::DoesNotCompile => self.does_not_compile,
            Tags::DoesNotRun => self.does_not_run,
            Tags::IgnoreFormat => self.ignore_format,
            Tags::FailingTests => self.failing_tests,
        }
    }

    /// Makes `tag` a member.
    pub fn insert(&mut self, tag: Tags)
        ensures
            final(self)@ == old(self)@.insert(tag),
    {
        match tag {
            Tags::DoesNotCompile => {
                self.does_not_compile = true;
            },
            Tags::DoesNotRun => {
                self.does_not_run = true;
            },
            Tags::IgnoreFormat => {
                self.ignore_format = true;
            },
            Tags::FailingTests => {
                self.failing_tests = true;
            },
        }
    }

    /// Whether the set has no member.
    pub fn is_empty(&self) -> (r: bool)
        ensures
            r == (self@ == Set::<Tags>::empty()),
    {
        let r = !self.does_not_compile && !self.does_not_run && !self.ignore_format
            && !self.failing_tests;
        proof {
            if !r {
                let t = if self.does_not_compile {
                    Tags::DoesNotCompile
                } else if self.does_not_run {
                    Tags::DoesNotRun
                } else if self.ignore_format {
                    Tags::IgnoreFormat
                } else {
                    Tags::FailingTests
                };
                assert(self@.contains(t));
            } else {
                assert(self@ =~= Set::<Tags>::empty());
            }
        }
        r
    }
}

/// Where a tag line's list of tokens starts: the length of the prefix
/// `//`, whitespace, `TAG`, an optional `S`, whitespace, an optional `:`,
/// whitespace, each run of whitespace as long as it can be. `None` if the
/// line is no tag line.
pub open spec fn tag_prefix_len(line: Seq<char>) -> Option<int> {
    if line.len() >= 2 && line[0] == '/' && line[1] == '/' {
        let i = skip_ws(line, 2);
        if i + 3 <= line.len() && line[i] == 'T' && line[i + 1] == 'A' && line[i + 2] == 'G' {
            let j = if i + 3 < line.len() && line[i + 3] == 'S' {
                i + 4
            } else {
                i + 3
            };
            let k = skip_ws(line, j);
            let m = if k < line.len() && line[k] == ':' {
                k + 1
            } else {
                k
            };
            Some(skip_ws(line, m))
        } else {
            None
        }
    } else {
        None
    }
}

/// Whether a line is a tag line.
pub open spec fn is_tag_line(line: Seq<char>) -> bool {
    tag_prefix_len(line) is Some
}

/// The line without its tag prefix; a line that is no tag line is unchanged.
pub open spec fn strip_tag_prefix(line: Seq<char>) -> Seq<char> {
    match tag_prefix_len(line) {
        Some(n) => line.skip(n),
        None => line,
    }
}

/// The tokens of a comma-separated list, each without the whitespace
/// around it.
pub open spec fn list_tokens(list: Seq<char>) -> Seq<Seq<char>> {
    let parts = split(trim(list), ',');
    Seq::new(parts.len(), |i: int| trim(parts[i]))
}

/// The tokens that a line lists behind its tag prefix.
pub open spec fn line_tokens(line: Seq<char>) -> Seq<Seq<char>> {
    list_tokens(strip_tag_prefix(line))
}

/// The tags that some token of `tokens` names.
pub open spec fn tokens_tags(tokens: Seq<Seq<char>>) -> Set<Tags> {
    Set::new(
        |t: Tags| exists|i: int| 0 <= i < tokens.len() && tag_of(#[trigger] tokens[i]) == Some(t),
    )
}

/// The index of the first line at or after `i` that is no tag line, or the
/// number of lines.
pub open spec fn tag_lines_end(lines: Seq<Seq<char>>, i: int) -> int
    decreases lines.len() - i,
{
    if 0 <= i < lines.len() && is_tag_line(lines[i]) {
        tag_lines_end(lines, i + 1)
    } else {
        i
    }
}

/// The number of lines in the tag block: the tag lines before the first
/// line that is none.
pub open spec fn tag_block_len(lines: Seq<Seq<char>>) -> int {
    tag_lines_end(lines, 0)
}

/// The tokens of the first `n` lines, in order.
pub open spec fn tokens_upto(lines: Seq<Seq<char>>, n: int) -> Seq<Seq<char>>
    decreases n,
{
    if n <= 0 {
        Seq::empty()
    } else {
        tokens_upto(lines, n - 1) + line_tokens(lines[n - 1])
    }
}

/// The tokens of the tag block, in order.
pub open spec fn block_tokens(lines: Seq<Seq<char>>) -> Seq<Seq<char>> {
    tokens_upto(lines, tag_block_len(lines))
}

/// The tags of a listing: those that its tag block names.
pub open spec fn block_tags(lines: Seq<Seq<char>>) -> Set<Tags> {
    tokens_tags(block_tokens(lines))
}

/// Where the token list of a tag line starts; `None` for any other line.
pub fn tag_prefix(line: &Vec<char>) -> (r: Option<usize>)
    ensures
        match r {
            Some(n) => tag_prefix_len(line@) == Some(n as int) && n <= line.len(),
            None => tag_prefix_len(line@) is None,
        },
{
    if line.len() < 2 || line[0] != '/' || line[1] != '/' {
        return None;
    }
    let i: usize = skip_whitespace(line, 2);
    if line.len() - i < 3 || line[i] != 'T' || line[i + 1] != 'A' || line[i + 2] != 'G' {
        return None;
    }
    let j: usize = if i + 3 < line.len() && line[i + 3] == 'S' {
        i + 4
    } else {
        i + 3
    };
    let k: usize = skip_whitespace(line, j);
    let m: usize = if k < line.len() && line[k] == ':' {
        k + 1
    } else {
        k
    };
    Some(skip_whitespace(line, m))
}

/// The tokens of a comma-separated list.
pub fn split_list(list: &Vec<char>) -> (out: Vec<Vec<char>>)
    ensures
        rows(out@) == list_tokens(list@),
{
    let parts = split_chars(&trimmed(list), ',');
    let mut out: Vec<Vec<char>> = Vec::new();
    let mut i: usize = 0;
    while i < parts.len()
        invariant
            i <= parts.len(),
            rows(parts@) == split(trim(list@), ','),
            rows(out@) == list_tokens(list@).take(i as int),
        decreases parts.len() - i,
    {
        let token = trimmed(&parts[i]);
        out.push(token);
        assert(list_tokens(list@).take(i + 1) =~= list_tokens(list@).take(i as int).push(token@));
        i += 1;
    }
    out
}

/// The tags that the tokens name.
pub fn tags_of_tokens(tokens: &Vec<Vec<char>>) -> (r: TagSet)
    ensures
        r@ == tokens_tags(rows(tokens@)),
{
    let mut r = TagSet::new();
    let mut i: usize = 0;
    while i < tokens.len()
        invariant
            i <= tokens.len(),
            r@ == tokens_tags(rows(tokens@).take(i as int)),
        decreases tokens.len() - i,
    {
        let ghost after = rows(tokens@).take(i + 1);
        if let Some(t) = tag_from_chars(&tokens[i]) {
            r.insert(t);
            assert(r@ =~= tokens_tags(after)) by {
                assert(tag_of(after[i as int]) == Some(t));
            }
        }
        i += 1;
    }
    assert(rows(tokens@).take(tokens.len() as int) == rows(tokens@));
    r
}

/// The tokens of the tag block of a listing, given by its lines.
pub fn block_tokens_of(lines: &Vec<Vec<char>>) -> (out: Vec<Vec<char>>)
    ensures
        rows(out@) == block_tokens(rows(lines@)),
{
    let mut out: Vec<Vec<char>> = Vec::new();
    let mut i: usize = 0;
    loop
        invariant_except_break
            tag_block_len(rows(lines@)) == tag_lines_end(rows(lines@), i as int),
        invariant
            i <= lines.len(),
            rows(out@) == tokens_upto(rows(lines@), i as int),
        ensures
            tag_block_len(rows(lines@)) == i,
        decreases lines.len() - i,
    {
        if i >= lines.len() {
            break ;
        }
        match tag_prefix(&lines[i]) {
            None => {
                break ;
            },
            Some(n) => {
                let list = slice(&lines[i], n, lines[i].len());
                let mut tokens = split_list(&list);
                out.append(&mut tokens);
                i += 1;
            },
        }
    }
    out
}

/// Whether a line is a tag line.
pub fn is_tag(line: &str) -> (r: bool)
    ensures
        r == is_tag_line(line@),
{
    tag_prefix(&str_chars(line)).is_some()
}

/// The line without its tag prefix; a line that is no tag line is
/// unchanged.
pub fn strip_tag(line: &str) -> (r: String)
    ensures
        r@ == strip_tag_prefix(line@),
{
    let chars = str_chars(line);
    match tag_prefix(&chars) {
        Some(n) => chars_string(&chars, n, chars.len()),
        None => chars_string(&chars, 0, chars.len()),
    }
}

/// The tokens that a line lists behind its tag prefix.
pub fn line_tag_tokens(line: &str) -> (r: Vec<String>)
    ensures
        views(r@) == line_tokens(line@),
{
    to_strings(&split_list(&str_chars(strip_tag(line).as_str())))
}

/// The tags that a line names behind its tag prefix.
pub fn line_tags(line: &str) -> (r: TagSet)
    ensures
        r@ == tokens_tags(line_tokens(line@)),
{
    tags_of_tokens(&split_list(&str_chars(strip_tag(line).as_str())))
}

/// The tokens of the tag block of a listing, in order. Unknown tokens are
/// among them.
pub fn scan_tag_tokens(source: &str) -> (out: Vec<String>)
    ensures
        views(out@) == block_tokens(lines(source@)),
{
    let chars = str_chars(source);
    let lines = split_lines(&chars);
    let tokens = block_tokens_of(&lines);
    to_strings(&tokens)
}

/// The tags of a listing: those that the tokens of its tag block name.
/// Unknown tokens are passed over.
pub fn scan_tags(source: &str) -> (r: TagSet)
    ensures
        r@ == block_tags(lines(source@)),
{
    let chars = str_chars(source);
    let lines = split_lines(&chars);
    let tokens = block_tokens_of(&lines);
    tags_of_tokens(&tokens)
}

proof fn lemma_tag_lines_end_bounds(lines: Seq<Seq<char>>, i: int)
    requires
        0 <= i <= lines.len(),
    ensures
        i <= tag_lines_end(lines, i) <= lines.len(),
        forall|j: int| i <= j < tag_lines_end(lines, i) ==> is_tag_line(#[trigger] lines[j]),
        tag_lines_end(lines, i) < lines.len() ==> !is_tag_line(lines[tag_lines_end(lines, i)]),
    decreases lines.len() - i,
{
    if i < lines.len() && is_tag_line(lines[i]) {
        lemma_tag_lines_end_bounds(lines, i + 1);
    }
}

proof fn lemma_tag_lines_end_prefix(a: Seq<Seq<char>>, b: Seq<Seq<char>>, k: int, i: int)
    requires
        0 <= i <= k < a.len(),
        k <= b.len(),
        a.take(k) == b.take(k),
        !is_tag_line(a[k]),
        k < b.len() ==> !is_tag_line(b[k]),
    ensures
        tag_lines_end(a, i) == tag_lines_end(b, i),
        tag_lines_end(a, i) <= k,
    decreases k - i,
{
    if i < k {
        assert(b[i] == b.take(k)[i]);
        if is_tag_line(a[i]) {
            lemma_tag_lines_end_prefix(a, b, k, i + 1);
        }
    }
}

proof fn lemma_tokens_upto_prefix(a: Seq<Seq<char>>, b: Seq<Seq<char>>, k: int, n: int)
    requires
        0 <= n <= k <= a.len(),
        k <= b.len(),
        a.take(k) == b.take(k),
    ensures
        tokens_upto(a, n) == tokens_upto(b, n),
    decreases n,
{
    if n > 0 {
        assert(b[n - 1] == b.take(k)[n - 1]);
        lemma_tokens_upto_prefix(a, b, k, n - 1);
    }
}

/// Tag scanning stops at the first line that is no tag line: whatever
/// follows that line, tag lines included, changes neither the tokens nor the
/// tags of the listing.
pub proof fn lemma_scan_stops_at_first_other_line(lines: Seq<Seq<char>>, k: int)
    requires
        0 <= k < lines.len(),
        !is_tag_line(lines[k]),
    ensures
        tag_block_len(lines) <= k,
        block_tokens(lines) == block_tokens(lines.take(k)),
        block_tags(lines) == block_tags(lines.take(k)),
{
    let head = lines.take(k);
    assert(head.take(k) == lines.take(k));
    lemma_tag_lines_end_prefix(lines, head, k, 0);
    lemma_tag_lines_end_bounds(lines, 0);
    lemma_tokens_upto_prefix(lines, head, k, tag_block_len(lines));
}

/// Two listings that agree up to and including a line that is no tag line
/// have the same tags.
pub proof fn lemma_tags_depend_on_leading_block(a: Seq<Seq<char>>, b: Seq<Seq<char>>, k: int)
    requires
        0 <= k < a.len(),
        k < b.len(),
        a.take(k + 1) == b.take(k + 1),
        !is_tag_line(a[k]),
    ensures
        block_tokens(a) == block_tokens(b),
        block_tags(a) == block_tags(b),
{
    assert(b[k] == b.take(k + 1)[k]);
    assert(a.take(k) == a.take(k + 1).take(k));
    assert(b.take(k) == b.take(k + 1).take(k));
    lemma_scan_stops_at_first_other_line(a, k);
    lemma_scan_stops_at_first_other_line(b, k);
}

/// Stripping is idempotent wherever what is left behind a tag prefix is not
/// again a tag line: stripping the stripped line changes nothing, and it
/// lists the same tokens and names the same tags as the line itself.
pub proof fn lemma_strip_idempotent(line: Seq<char>)
    requires
        !is_tag_line(strip_tag_prefix(line)),
    ensures
        strip_tag_prefix(strip_tag_prefix(line)) == strip_tag_prefix(line),
        line_tokens(strip_tag_prefix(line)) == line_tokens(line),
        tokens_tags(line_tokens(strip_tag_prefix(line))) == tokens_tags(line_tokens(line)),
{
}

} // verus!
