use cairo_listings::tags::{
    block_tokens_of, is_tag, line_tag_tokens, line_tags, scan_tag_tokens, scan_tags, split_list,
    strip_tag, tag_from_chars, tag_prefix, tags_of_tokens, TagSet, Tags,
};

const LINES: [&str; 30] = [
    "",
    "/",
    "//",
    "//TAG",
    "//TAGS",
    "// TAG",
    "// TAG:",
    "// TAG :",
    "// TAGS : does_not_run",
    "//   TAGS:does_not_run,does_not_compile",
    "// TAG: does_not_run, ignore_format ,test_fails",
    "// TAGX: does_not_run",
    "// TAGSS: does_not_run",
    "// TAG:: does_not_run",
    "// Tag: does_not_run",
    " // TAG: does_not_run",
    "/// TAG: does_not_run",
    "//\tTAG\t:\tdoes_not_run",
    "//\u{a0}TAG\u{2003}:\u{3000}does_not_run",
    "// TA",
    "// T",
    "// TAG: // TAG: does_not_run",
    "// TAG S: x",
    "// TAG: foo",
    "fn main() {}",
    "// a comment",
    "//TAGS:",
    "// TAG:does_not_compile,",
    "//TAG does_not_run",
    "// TAGS does_not_run : x",
];

fn pattern() -> regex::Regex {
    regex::Regex::new(r"^//\s*TAG(S)?\s*(:)?\s*").unwrap()
}

fn members(set: &TagSet) -> Vec<Tags> {
    let all = [Tags::DoesNotCompile, Tags::DoesNotRun, Tags::IgnoreFormat, Tags::FailingTests];
    all.into_iter().filter(|t| set.contains(*t)).collect()
}

#[test]
fn tag_scanning_stops_at_first_other_line() {
    let source = "// TAG: foo\n\nfn main(){}\n// TAG: bar";
    assert_eq!(scan_tag_tokens(source), vec!["foo".to_string()]);
    assert!(scan_tags(source).is_empty());
}

#[test]
fn tag_line_after_code_is_never_picked_up() {
    let source = "// TAG: does_not_run\n\nfn main(){}\n// TAG: does_not_compile";
    assert_eq!(scan_tag_tokens(source), vec!["does_not_run".to_string()]);
    assert_eq!(members(&scan_tags(source)), vec![Tags::DoesNotRun]);
    let cut = "// TAG: does_not_run\n";
    assert_eq!(members(&scan_tags(cut)), members(&scan_tags(source)));
}

#[test]
fn tag_block_spans_several_leading_lines() {
    let source = "// TAG: does_not_run\n//TAGS: test_fails, ignore_format\nfn main() {}\n";
    assert_eq!(
        scan_tag_tokens(source),
        vec!["does_not_run".to_string(), "test_fails".to_string(), "ignore_format".to_string()]
    );
    assert_eq!(
        members(&scan_tags(source)),
        vec![Tags::DoesNotRun, Tags::IgnoreFormat, Tags::FailingTests]
    );
}

#[test]
fn blank_first_line_ends_the_tag_block() {
    let source = "\n// TAG: does_not_run\n";
    assert!(scan_tag_tokens(source).is_empty());
    assert!(scan_tags(source).is_empty());
    assert!(scan_tags("").is_empty());
}

#[test]
fn known_tokens_name_tags() {
    assert_eq!(Tags::from_str("does_not_compile"), Some(Tags::DoesNotCompile));
    assert_eq!(Tags::from_str("does_not_run"), Some(Tags::DoesNotRun));
    assert_eq!(Tags::from_str("ignore_format"), Some(Tags::IgnoreFormat));
    assert_eq!(Tags::from_str("test_fails"), Some(Tags::FailingTests));
    assert_eq!(Tags::from_str("foo"), None);
    assert_eq!(Tags::from_str(""), None);
    assert_eq!(Tags::from_str(" does_not_run"), None);
    assert_eq!(Tags::from_str("DOES_NOT_RUN"), None);
}

#[test]
fn tags_name_their_tokens() {
    for t in [Tags::DoesNotCompile, Tags::DoesNotRun, Tags::IgnoreFormat, Tags::FailingTests] {
        assert_eq!(Tags::from_str(t.as_str()), Some(t));
    }
}

#[test]
fn tag_set_holds_what_was_inserted() {
    let mut set = TagSet::new();
    assert!(set.is_empty());
    assert!(!set.contains(Tags::DoesNotRun));
    set.insert(Tags::DoesNotRun);
    set.insert(Tags::DoesNotRun);
    assert!(set.contains(Tags::DoesNotRun));
    assert!(!set.contains(Tags::DoesNotCompile));
    assert!(!set.is_empty());
    assert_eq!(members(&set), vec![Tags::DoesNotRun]);
}

#[test]
fn tag_lines_are_those_the_pattern_matches() {
    let re = pattern();
    for line in LINES {
        assert_eq!(is_tag(line), re.is_match(line), "{:?}", line);
    }
}

#[test]
fn stripping_removes_what_the_pattern_matches() {
    let re = pattern();
    for line in LINES {
        assert_eq!(strip_tag(line), re.replace(line, "").into_owned(), "{:?}", line);
    }
    assert_eq!(strip_tag("// TAGS : does_not_run"), "does_not_run");
    assert_eq!(strip_tag("fn main() {}"), "fn main() {}");
}

#[test]
fn line_tokens_are_split_and_trimmed() {
    for line in LINES {
        let re = pattern();
        let rest = re.replace(line, "").into_owned();
        let expected: Vec<String> = rest.trim().split(',').map(|t| t.trim().to_string()).collect();
        assert_eq!(line_tag_tokens(line), expected, "{:?}", line);
    }
    assert_eq!(
        line_tag_tokens("// TAG: does_not_run, ignore_format ,test_fails"),
        vec!["does_not_run", "ignore_format", "test_fails"]
    );
    assert_eq!(line_tag_tokens("// TAG:"), vec![""]);
}

#[test]
fn stripping_twice_is_stripping_once() {
    for line in LINES {
        let once = strip_tag(line);
        if !is_tag(&once) {
            assert_eq!(strip_tag(&once), once, "{:?}", line);
            assert_eq!(line_tag_tokens(&once), line_tag_tokens(line), "{:?}", line);
            assert_eq!(members(&line_tags(&once)), members(&line_tags(line)), "{:?}", line);
        }
    }
}

#[test]
fn stripping_a_tag_line_behind_a_tag_prefix_strips_again() {
    let line = "// TAG: // TAG: does_not_run";
    let once = strip_tag(line);
    assert_eq!(once, "// TAG: does_not_run");
    assert!(is_tag(&once));
    assert_eq!(strip_tag(&once), "does_not_run");
    assert!(line_tags(line).is_empty());
    assert_eq!(members(&line_tags(&once)), vec![Tags::DoesNotRun]);
}

#[test]
fn unknown_tokens_are_passed_over() {
    let tags = scan_tags("// TAG: foo, does_not_compile, bar\n");
    assert_eq!(members(&tags), vec![Tags::DoesNotCompile]);
    assert_eq!(scan_tag_tokens("// TAG: foo, does_not_compile, bar\n").len(), 3);
}

fn chars(s: &str) -> Vec<char> {
    s.chars().collect()
}

#[test]
fn tag_prefix_ends_where_the_token_list_starts() {
    assert_eq!(tag_prefix(&chars("// TAG: does_not_run")), Some(8));
    assert_eq!(tag_prefix(&chars("//TAGS")), Some(6));
    assert_eq!(tag_prefix(&chars("//TAGS  :   ")), Some(12));
    assert_eq!(tag_prefix(&chars("//TAG S")), Some(6));
    assert_eq!(tag_prefix(&chars("// tag")), None);
    assert_eq!(tag_prefix(&chars("")), None);
}

#[test]
fn token_lists_and_their_tags() {
    let tokens = split_list(&chars("  does_not_run ,foo,, test_fails  "));
    assert_eq!(tokens, vec![chars("does_not_run"), chars("foo"), chars(""), chars("test_fails")]);
    let tags = tags_of_tokens(&tokens);
    assert_eq!(members(&tags), vec![Tags::DoesNotRun, Tags::FailingTests]);
    assert_eq!(tag_from_chars(&chars("ignore_format")), Some(Tags::IgnoreFormat));
    assert_eq!(tag_from_chars(&chars("ignore_fmt")), None);
    let lines = vec![chars("//TAG: a"), chars("// TAGS: b, c"), chars("x"), chars("// TAG: d")];
    assert_eq!(block_tokens_of(&lines), vec![chars("a"), chars("b"), chars("c")]);
}

fn for_each_text(alphabet: &[char], max_len: usize, f: &mut dyn FnMut(&str)) {
    let mut text = String::new();
    let mut stack: Vec<usize> = vec![0];
    f("");
    while let Some(top) = stack.last_mut() {
        if *top == alphabet.len() {
            stack.pop();
            text.pop();
            continue;
        }
        let c = alphabet[*top];
        *top += 1;
        text.push(c);
        f(&text);
        if stack.len() < max_len {
            stack.push(0);
        } else {
            text.pop();
        }
    }
}

#[test]
fn tag_lines_agree_with_the_pattern_on_every_short_line() {
    let re = pattern();
    let alphabet = ['/', ' ', 'T', 'A', 'G', 'S', ':', 'x', '\u{2003}'];
    let mut seen = 0;
    for_each_text(&alphabet, 5, &mut |line| {
        assert_eq!(is_tag(line), re.is_match(line), "{:?}", line);
        seen += 1;
    });
    assert_eq!(seen, 1 + 9 + 81 + 729 + 6561 + 59049);
}

#[test]
fn stripping_agrees_with_the_pattern_behind_a_tag() {
    let re = pattern();
    let alphabet = ['/', ' ', 'T', 'A', 'G', 'S', ':', 'x', '\t'];
    for head in ["//TAG", "// TAG", "//\u{a0}TAGS", "//TAG "] {
        for_each_text(&alphabet, 4, &mut |tail| {
            let line = format!("{}{}", head, tail);
            assert_eq!(strip_tag(&line), re.replace(&line, "").into_owned(), "{:?}", line);
        });
    }
}
