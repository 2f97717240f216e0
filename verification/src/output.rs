//! The recorded output of a listing: a file whose first line is `$ `
//! and the command that was run, and whose remainder is what the command
//! printed, with the paths in it cut down to start at `listings/` so that
//! the file is the same on every machine.

use crate::cmd::ScarbCmd;
use crate::pattern::{regex_replace_all, replace_all};
use crate::text::{
    concat2, contains, find_char, has_prefix, has_substring, index_of_char, is_word, join,
    join_strings, lemma_find_char_at, lemma_words_append, lemma_words_are_words,
    lemma_words_of_join, lemma_words_of_word, lemma_words_shift, lines, rows, slice, split_lines,
    split_words, starts_with, str_chars, str_eq, text_of, to_string, to_strings, views,
    words_from,
};
use vstd::prelude::*;

verus! {

/// The command that a first line names: behind `$ `, the first two words
/// with one space between them (the first alone if there is no second), and
/// the words that follow as its arguments. `None` where the line does not
/// start with `$ ` or holds no word behind it.
pub open spec fn command_of(line: Seq<char>) -> Option<(Seq<char>, Seq<Seq<char>>)> {
    if has_prefix(line, "$ "@) {
        let w = words_from(line, 2);
        if w.len() == 0 {
            None
        } else if w.len() == 1 {
            Some((w[0], Seq::empty()))
        } else {
            Some((w[0] + " "@ + w[1], w.skip(2)))
        }
    } else {
        None
    }
}

/// The first line of a text, without its line feed.
pub open spec fn first_line(content: Seq<char>) -> Seq<char> {
    content.take(find_char(content, '\n', 0))
}

/// A command and its arguments, as plain values.
pub open spec fn command_view(c: Option<(String, Vec<String>)>) -> Option<
    (Seq<char>, Seq<Seq<char>>),
> {
    match c {
        Some((command, args)) => Some((command@, views(args@))),
        None => None,
    }
}

/// The command that the first line of a recorded output names, and its
/// arguments.
pub fn read_command(content: &str) -> (r: Option<(String, Vec<String>)>)
    ensures
        command_view(r) == command_of(first_line(content@)),
{
    let chars = str_chars(content);
    let end: usize = index_of_char(&chars, '\n', 0);
    let line = slice(&chars, 0, end);
    if !starts_with(&line, &str_chars("$ ")) {
        return None;
    }
    proof {
        reveal_strlit("$ ");
    }
    let parts = split_words(&line, 2);
    if parts.len() == 0 {
        None
    } else if parts.len() == 1 {
        let args: Vec<String> = Vec::new();
        Some((to_string(&parts[0]), args))
    } else {
        let mut command = to_string(&parts[0]);
        command.append(" ");
        command.append(to_string(&parts[1]).as_str());
        let mut args: Vec<String> = Vec::new();
        let mut i: usize = 2;
        while i < parts.len()
            invariant
                2 <= i <= parts.len(),
                views(args@) == rows(parts@).subrange(2, i as int),
            decreases parts.len() - i,
        {
            let arg = to_string(&parts[i]);
            args.push(arg);
            assert(rows(parts@).subrange(2, i + 1) =~= rows(parts@).subrange(2, i as int).push(
                arg@,
            ));
            i += 1;
        }
        Some((command, args))
    }
}

/// The check that a recorded command stands for.
pub open spec fn check_of(command: Seq<char>) -> Option<ScarbCmd> {
    if command == "scarb build"@ {
        Some(ScarbCmd::Build())
    } else if command == "scarb cairo-run"@ {
        Some(ScarbCmd::CairoRun())
    } else if command == "scarb test"@ || command == "scarb cairo-test"@ {
        Some(ScarbCmd::Test())
    } else if command == "scarb format"@ {
        Some(ScarbCmd::Format())
    } else {
        None
    }
}

/// The check that a recorded command stands for; `None` for an unknown
/// command.
pub fn command_check(command: &str) -> (r: Option<ScarbCmd>)
    ensures
        r == check_of(command@),
{
    if str_eq(command, "scarb build") {
        Some(ScarbCmd::Build())
    } else if str_eq(command, "scarb cairo-run") {
        Some(ScarbCmd::CairoRun())
    } else if str_eq(command, "scarb test") || str_eq(command, "scarb cairo-test") {
        Some(ScarbCmd::Test())
    } else if str_eq(command, "scarb format") {
        Some(ScarbCmd::Format())
    } else {
        None
    }
}

/// What the toolchain prints while it waits for another process.
pub open spec fn lock_notice() -> Seq<char> {
    "Blocking waiting for file lock on package cache"@
}

/// The lines among the first `n` that do not hold the lock notice.
pub open spec fn kept_lines(lines: Seq<Seq<char>>, n: int) -> Seq<Seq<char>>
    decreases n,
{
    if n <= 0 {
        Seq::empty()
    } else if has_substring(lines[n - 1], lock_notice()) {
        kept_lines(lines, n - 1)
    } else {
        kept_lines(lines, n - 1).push(lines[n - 1])
    }
}

/// The text without the lines that hold the lock notice: the lines that
/// are left, with a line feed between each two.
pub open spec fn without_lock_lines(text: Seq<char>) -> Seq<char> {
    join(kept_lines(lines(text), lines(text).len() as int), "\n"@)
}

/// The text without the lines that hold the lock notice.
pub fn drop_lock_lines(text: &str) -> (r: String)
    ensures
        r@ == without_lock_lines(text@),
{
    let chars = str_chars(text);
    let ls = split_lines(&chars);
    let notice = str_chars("Blocking waiting for file lock on package cache");
    let mut kept: Vec<Vec<char>> = Vec::new();
    let mut i: usize = 0;
    while i < ls.len()
        invariant
            i <= ls.len(),
            notice@ == lock_notice(),
            rows(kept@) == kept_lines(rows(ls@), i as int),
        decreases ls.len() - i,
    {
        if !contains(&ls[i], &notice) {
            kept.push(ls[i].clone());
        }
        i += 1;
    }
    let strings = to_strings(&kept);
    join_strings(&strings, "\n")
}

/// The pattern of a path in parentheses that leads to `listings/`.
pub open spec fn path_in_parentheses() -> Seq<char> {
    "\\(.*?(listings/.*)"@
}

/// The pattern of a path behind an arrow that leads to `listings/`.
pub open spec fn path_behind_arrow() -> Seq<char> {
    "-->\\s*.*?(listings/.*)"@
}

/// What is left of the output of a command: the paths in parentheses and
/// behind arrows start at `listings/`, by the two patterns, and the lines
/// with the lock notice are gone. `None` where a pattern is refused.
pub open spec fn cleaned(output: Seq<char>) -> Option<Seq<char>> {
    match regex_replace_all(path_in_parentheses(), output, "($1"@) {
        Some(first) => match regex_replace_all(path_behind_arrow(), first, "--> $1"@) {
            Some(second) => Some(without_lock_lines(second)),
            None => None,
        },
        None => None,
    }
}

/// What is left of the output of a command for the record.
pub fn clean_output(output: &str) -> (r: Option<String>)
    ensures
        text_of(r) == cleaned(output@),
{
    match replace_all("\\(.*?(listings/.*)", output, "($1") {
        Some(first) => match replace_all("-->\\s*.*?(listings/.*)", first.as_str(), "--> $1") {
            Some(second) => Some(drop_lock_lines(second.as_str())),
            None => None,
        },
        None => None,
    }
}

/// The text of a recorded output: `$ `, the command, a space, the arguments
/// with a space between each two, a line feed, the output and two line
/// feeds.
pub open spec fn record_of(command: Seq<char>, args: Seq<Seq<char>>, output: Seq<char>) -> Seq<
    char,
> {
    "$ "@ + command + " "@ + join(args, " "@) + "\n"@ + output + "\n\n"@
}

/// The text of a recorded output, from the command, its arguments and the
/// cleaned output.
pub fn render_output_file(command: &str, args: &Vec<String>, output: &str) -> (r: String)
    ensures
        r@ == record_of(command@, views(args@), output@),
{
    let mut r = concat2("$ ", command);
    r.append(" ");
    r.append(join_strings(args, " ").as_str());
    r.append("\n");
    r.append(output);
    r.append("\n\n");
    r
}

/// The new text of a recorded output, from the command that the old text
/// names and what that command printed now. `None` where a pattern is
/// refused.
pub fn regenerate(command: &str, args: &Vec<String>, output: &str) -> (r: Option<String>)
    ensures
        text_of(r) == match cleaned(output@) {
            Some(c) => Some(record_of(command@, views(args@), c)),
            None => None,
        },
{
    match clean_output(output) {
        Some(c) => Some(render_output_file(command, args, c.as_str())),
        None => None,
    }
}

/// The first line of a record: `$ `, the command, a space and the
/// arguments with a space between each two.
pub open spec fn command_line_of(command: Seq<char>, args: Seq<Seq<char>>) -> Seq<char> {
    "$ "@ + command + " "@ + join(args, " "@)
}

proof fn lemma_words_of_command_line(w: Seq<Seq<char>>)
    requires
        w.len() >= 1,
        forall|k: int| 0 <= k < w.len() ==> is_word(#[trigger] w[k]),
    ensures
        w.len() == 1 ==> words_from(command_line_of(w[0], Seq::empty()), 2) == w,
        w.len() >= 2 ==> words_from(command_line_of(w[0] + " "@ + w[1], w.skip(2)), 2) == w,
        w.len() == 1 ==> forall|k: int|
            0 <= k < command_line_of(w[0], Seq::empty()).len() ==> #[trigger] command_line_of(
                w[0],
                Seq::empty(),
            )[k] != '\n',
        w.len() >= 2 ==> forall|k: int|
            0 <= k < command_line_of(w[0] + " "@ + w[1], w.skip(2)).len()
                ==> #[trigger] command_line_of(w[0] + " "@ + w[1], w.skip(2))[k] != '\n',
{
    reveal_strlit("$ ");
    reveal_strlit(" ");
    let sp = seq![' '];
    let dollar = seq!['$', ' '];
    assert(" "@ =~= sp);
    let w0 = w[0];
    lemma_words_of_word(w0);
    if w.len() == 1 {
        // The line is `$ `, the word and a space.
        let none = Seq::<Seq<char>>::empty();
        let u = w0 + sp;
        let t = command_line_of(w0, none);
        assert(t =~= dollar + u);
        lemma_words_shift(dollar, u, 0);
        lemma_words_append(w0, sp, 0);
    } else {
        // The line is `$ `, then the first word, and behind a space each the
        // second word and the arguments with their spaces. A word in front
        // of a space is the first word of what it starts.
        let w1 = w[1];
        let a = w.skip(2);
        lemma_words_of_join(a, a.len() as int);
        let j = join(a, sp);
        let t2 = sp + j;
        let t1 = sp + (w1 + t2);
        let u = w0 + t1;
        let c = w0 + sp + w1;
        let t = command_line_of(c, a);
        assert(t =~= dollar + u);
        lemma_words_shift(dollar, u, 0);
        lemma_words_append(w0, t1, 0);
        lemma_words_shift(sp, w1 + t2, 0);
        lemma_words_of_word(w1);
        lemma_words_append(w1, t2, 0);
        lemma_words_shift(sp, j, 0);
    }
}

/// The command that a first line names; empty where it names none.
pub open spec fn named_command(line: Seq<char>) -> Seq<char> {
    match command_of(line) {
        Some((command, args)) => command,
        None => Seq::empty(),
    }
}

/// The arguments that a first line names; none where it names no command.
pub open spec fn named_args(line: Seq<char>) -> Seq<Seq<char>> {
    match command_of(line) {
        Some((command, args)) => args,
        None => Seq::empty(),
    }
}

/// The record that is written after a record with the first line `line`
/// was read and its command printed `output`.
pub open spec fn rewritten(line: Seq<char>, output: Seq<char>) -> Seq<char> {
    record_of(named_command(line), named_args(line), output)
}

/// A record names its own command: the command and the arguments that were
/// read from a first line are read again from the record that is written
/// with them, whatever the output. So a record that is made again from the
/// same output is the same, byte for byte.
pub proof fn lemma_record_names_its_command(line: Seq<char>, output: Seq<char>)
    requires
        command_of(line) is Some,
    ensures
        command_of(first_line(rewritten(line, output))) == command_of(line),
        rewritten(first_line(rewritten(line, output)), output) == rewritten(line, output),
{
    reveal_strlit("$ ");
    reveal_strlit("\n");
    let w = words_from(line, 2);
    lemma_words_are_words(line, 2);
    lemma_words_of_command_line(w);
    let c = named_command(line);
    let a = named_args(line);
    let t = command_line_of(c, a);
    let record = record_of(c, a, output);
    // No word holds a line feed, so the first line feed of the record is
    // the one behind its command line.
    lemma_find_char_at(record, '\n', 0, t.len() as int);
    assert(first_line(record) =~= t);
    assert(t.subrange(0, 2) =~= "$ "@);
}

} // verus!
