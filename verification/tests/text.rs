use cairo_listings::text::{
    char_is_whitespace, chars_eq, concat2, concat3, contains, decimal_chars, decimal_string,
    extend, find_from, join_strings, matches_at, replace_chars, replace_text, split_chars,
    split_lines, split_text, split_whitespace, starts_with, str_chars, str_eq, text_contains,
    text_lines, to_string, to_strings, trim_text, trimmed,
};

fn chars(s: &str) -> Vec<char> {
    s.chars().collect()
}

fn strings(v: Vec<Vec<char>>) -> Vec<String> {
    v.into_iter().map(|c| c.into_iter().collect()).collect()
}

const SAMPLES: [&str; 24] = [
    "",
    " ",
    "a",
    "\n",
    "\r\n",
    "a\n",
    "a\r\n",
    "a\r",
    "a\nb",
    "a\n\nb\n",
    "a\r\n\r\nb\r",
    "\r\r\n",
    "  hello  world \t",
    "\u{a0}x\u{2003}y\u{3000}",
    "a,b,,c,",
    ",",
    ", a , b ,",
    "// TAG: does_not_run, does_not_compile",
    "one two\tthree\u{85}four",
    "\n\n\n",
    "x\n\r\ny",
    "tab\tsep",
    "é ü\u{2028}ß",
    "trailing \u{1680}",
];

#[test]
fn whitespace_agrees_with_std_on_every_char() {
    let mut n: u32 = 0;
    while n <= 0x10FFFF {
        if let Some(c) = char::from_u32(n) {
            assert_eq!(char_is_whitespace(c), c.is_whitespace(), "U+{:04X}", n);
        }
        n += 1;
    }
}

#[test]
fn str_chars_gives_the_characters() {
    assert_eq!(str_chars("héllo"), vec!['h', 'é', 'l', 'l', 'o']);
    assert_eq!(str_chars(""), Vec::<char>::new());
}

#[test]
fn to_string_appends_each_character() {
    assert_eq!(to_string(&chars("abcdef")), "abcdef");
    assert_eq!(to_string(&Vec::new()), "");
    assert_eq!(to_strings(&vec![chars("ab"), chars(""), chars("c")]), vec!["ab", "", "c"]);
    let mut out = chars("ab");
    extend(&mut out, &chars("cd"));
    assert_eq!(out, chars("abcd"));
}

#[test]
fn lines_agree_with_std() {
    for s in SAMPLES {
        let expected: Vec<String> = s.lines().map(|l| l.to_string()).collect();
        assert_eq!(strings(split_lines(&chars(s))), expected, "{:?}", s);
        assert_eq!(text_lines(s), expected, "{:?}", s);
    }
}

#[test]
fn lines_of_a_text_with_a_bare_carriage_return() {
    assert_eq!(text_lines("a\r\nb\rc\nd\r"), vec!["a", "b\rc", "d\r"]);
    assert_eq!(text_lines(""), Vec::<String>::new());
    assert_eq!(text_lines("\n"), vec![""]);
}

#[test]
fn trim_agrees_with_std() {
    for s in SAMPLES {
        let got: String = trimmed(&chars(s)).into_iter().collect();
        assert_eq!(got, s.trim(), "{:?}", s);
        assert_eq!(trim_text(s), s.trim(), "{:?}", s);
    }
}

#[test]
fn split_agrees_with_std() {
    for s in SAMPLES {
        let expected: Vec<String> = s.split(',').map(|l| l.to_string()).collect();
        assert_eq!(strings(split_chars(&chars(s), ',')), expected, "{:?}", s);
        assert_eq!(split_text(s, ','), expected, "{:?}", s);
    }
    assert_eq!(strings(split_chars(&chars("a,b,,c,"), ',')), vec!["a", "b", "", "c", ""]);
    assert_eq!(strings(split_chars(&chars(""), ',')), vec![""]);
}

#[test]
fn words_agree_with_std() {
    for s in SAMPLES {
        let expected: Vec<String> = s.split_whitespace().map(|l| l.to_string()).collect();
        assert_eq!(split_whitespace(s), expected, "{:?}", s);
    }
    assert_eq!(split_whitespace(" scarb  build\n"), vec!["scarb", "build"]);
}

#[test]
fn contains_agrees_with_std() {
    let needles = ["", "a", "b,", "TAG", "\n", "\r\n", "hello", " ", "xyz"];
    for s in SAMPLES {
        for n in needles {
            assert_eq!(contains(&chars(s), &chars(n)), s.contains(n), "{:?} {:?}", s, n);
            assert_eq!(starts_with(&chars(s), &chars(n)), s.starts_with(n), "{:?} {:?}", s, n);
            assert_eq!(text_contains(s, n), s.contains(n), "{:?} {:?}", s, n);
        }
    }
}

#[test]
fn find_from_gives_the_first_occurrence() {
    let hay = chars("abcabcabc");
    assert_eq!(find_from(&hay, &chars("bc"), 0), Some(1));
    assert_eq!(find_from(&hay, &chars("bc"), 2), Some(4));
    assert_eq!(find_from(&hay, &chars("bc"), 8), None);
    assert_eq!(find_from(&hay, &chars("abcabcabcd"), 0), None);
    assert_eq!(find_from(&hay, &chars(""), 9), Some(9));
    assert_eq!(find_from(&hay, &chars(""), 10), None);
}

#[test]
fn replace_agrees_with_std() {
    let pairs = [("a", "xy"), (",", ""), ("", "-"), ("\n", "\\n"), ("aa", "a"), ("  ", " ")];
    for s in SAMPLES {
        for (n, r) in pairs {
            assert_eq!(replace_text(s, n, r), s.replace(n, r), "{:?} {:?} {:?}", s, n, r);
        }
    }
    assert_eq!(replace_text("aaaa", "aa", "b"), "bb");
    assert_eq!(replace_text("aaa", "aa", "b"), "ba");
    assert_eq!(replace_text("ab", "", "-"), "-a-b-");
    assert_eq!(replace_text("Test Chapter", " ", "-"), "Test-Chapter");
    assert_eq!(replace_chars(&chars("a.b.c"), &chars("."), &chars("::")), chars("a::b::c"));
    assert!(matches_at(&chars("abc"), &chars("bc"), 1));
    assert!(!matches_at(&chars("abc"), &chars("bc"), 2));
    assert!(!matches_at(&chars("abc"), &chars("bc"), usize::MAX));
}

#[test]
fn equality_of_texts() {
    assert!(str_eq("abc", "abc"));
    assert!(!str_eq("abc", "abd"));
    assert!(!str_eq("abc", "ab"));
    assert!(str_eq("", ""));
    assert!(chars_eq(&chars("x"), &chars("x")));
    assert!(!chars_eq(&chars("x"), &chars("")));
}

#[test]
fn decimal_numerals() {
    assert_eq!(decimal_string(0), "0");
    assert_eq!(decimal_string(7), "7");
    assert_eq!(decimal_string(10), "10");
    assert_eq!(decimal_string(200000000), "200000000");
    assert_eq!(decimal_string(u128::MAX), u128::MAX.to_string());
    assert_eq!(decimal_chars(4096), chars("4096"));
    let mut n: u128 = 0;
    while n < 2000 {
        assert_eq!(decimal_string(n), n.to_string());
        n += 1;
    }
}

#[test]
fn joins_and_concatenations() {
    let parts = vec!["a".to_string(), "".to_string(), "c".to_string()];
    assert_eq!(join_strings(&parts, ", "), "a, , c");
    assert_eq!(join_strings(&Vec::new(), ", "), "");
    assert_eq!(join_strings(&vec!["x".to_string()], "--"), "x");
    assert_eq!(concat2("ab", "cd"), "abcd");
    assert_eq!(concat3("ab", "", "cd"), "abcd");
}

fn for_each_text(alphabet: &[char], max_len: usize, f: &mut dyn FnMut(&str)) {
    let mut text = String::new();
    let mut stack: Vec<usize> = vec![0];
    f("");
    while let Some(top) = stack.last_mut() {
        if *top == alphabet.len() {
            stack.pop();
            text.pop();
            continue;
        }
        let c = alphabet[*top];
        *top += 1;
        text.push(c);
        f(&text);
        if stack.len() < max_len {
            stack.push(0);
        } else {
            text.pop();
        }
    }
}

#[test]
fn text_operations_agree_with_std_on_every_short_text() {
    let alphabet = ['a', ' ', '\n', '\r', ','];
    let mut seen = 0;
    for_each_text(&alphabet, 6, &mut |s| {
        let lines: Vec<String> = s.lines().map(|l| l.to_string()).collect();
        assert_eq!(text_lines(s), lines, "{:?}", s);
        assert_eq!(trim_text(s), s.trim(), "{:?}", s);
        let pieces: Vec<String> = s.split(',').map(|l| l.to_string()).collect();
        assert_eq!(split_text(s, ','), pieces, "{:?}", s);
        let words: Vec<String> = s.split_whitespace().map(|l| l.to_string()).collect();
        assert_eq!(split_whitespace(s), words, "{:?}", s);
        assert_eq!(replace_text(s, "a ", "b"), s.replace("a ", "b"), "{:?}", s);
        assert_eq!(replace_text(s, "aa", "a"), s.replace("aa", "a"), "{:?}", s);
        assert_eq!(text_contains(s, "a,\n"), s.contains("a,\n"), "{:?}", s);
        seen += 1;
    });
    assert_eq!(seen, 1 + 5 + 25 + 125 + 625 + 3125 + 15625);
}
