//! Character-level text operations with exact models over `Seq<char>`.
//!
//! Everything the rest of the crate does with text (splitting into lines,
//! trimming, splitting on a separator, searching for a substring) is defined
//! here once as a spec function and implemented by a verified function.

use vstd::prelude::*;

verus! {

/// `String::push` appends one character.
pub assume_specification[ String::push ](s: &mut String, c: char)
    ensures
        final(s)@ == old(s)@.push(c),
;

/// The characters with the Unicode `White_Space` property.
pub open spec fn is_whitespace(c: char) -> bool {
    let n = c as u32;
    ||| 0x09 <= n <= 0x0D
    ||| n == 0x20
    ||| n == 0x85
    ||| n == 0xA0
    ||| n == 0x1680
    ||| 0x2000 <= n <= 0x200A
    ||| n == 0x2028
    ||| n == 0x2029
    ||| n == 0x202F
    ||| n == 0x205F
    ||| n == 0x3000
}

/// Whether a character is whitespace.
pub fn char_is_whitespace(c: char) -> (r: bool)
    ensures
        r == is_whitespace(c),
{
    let n: u32 = c as u32;
    (0x09 <= n && n <= 0x0D) || n == 0x20 || n == 0x85 || n == 0xA0 || n == 0x1680 || (0x2000 <= n
        && n <= 0x200A) || n == 0x2028 || n == 0x2029 || n == 0x202F || n == 0x205F || n == 0x3000
}

/// The views of a sequence of strings.
pub open spec fn views(v: Seq<String>) -> Seq<Seq<char>> {
    Seq::new(v.len(), |i: int| v[i]@)
}

/// The view of a string, if there is one.
pub open spec fn text_of(s: Option<String>) -> Option<Seq<char>> {
    match s {
        Some(s) => Some(s@),
        None => None,
    }
}

/// The views of a sequence of character vectors.
pub open spec fn rows(v: Seq<Vec<char>>) -> Seq<Seq<char>> {
    Seq::new(v.len(), |i: int| v[i]@)
}

/// The characters of a string, in order.
pub fn str_chars(s: &str) -> (out: Vec<char>)
    ensures
        out@ == s@,
{
    let mut out: Vec<char> = Vec::new();
    for c in it: s.chars()
        invariant
            out@ == it.seq().take(it.index() as int),
            it.seq() == s@,
    {
        out.push(c);
    }
    out
}

/// The string made of the characters `v[from..to]`.
pub(crate) fn chars_string(v: &Vec<char>, from: usize, to: usize) -> (out: String)
    requires
        from <= to <= v.len(),
    ensures
        out@ == v@.subrange(from as int, to as int),
{
    let mut out = String::new();
    let mut i: usize = from;
    while i < to
        invariant
            from <= i <= to <= v.len(),
            out@ == v@.subrange(from as int, i as int),
        decreases to - i,
    {
        out.push(v[i]);
        i += 1;
    }
    out
}

/// A copy of `v[from..to]`.
pub(crate) fn slice(v: &Vec<char>, from: usize, to: usize) -> (out: Vec<char>)
    requires
        from <= to <= v.len(),
    ensures
        out@ == v@.subrange(from as int, to as int),
{
    let mut out: Vec<char> = Vec::new();
    let mut i: usize = from;
    while i < to
        invariant
            from <= i <= to <= v.len(),
            out@ == v@.subrange(from as int, i as int),
        decreases to - i,
    {
        out.push(v[i]);
        i += 1;
    }
    out
}

/// Appends the characters of `tail` to `out`.
pub fn extend(out: &mut Vec<char>, tail: &Vec<char>)
    ensures
        final(out)@ == old(out)@ + tail@,
{
    let mut i: usize = 0;
    while i < tail.len()
        invariant
            i <= tail.len(),
            out@ == old(out)@ + tail@.take(i as int),
        decreases tail.len() - i,
    {
        out.push(tail[i]);
        i += 1;
    }
}

/// Whether two texts hold the same characters.
pub fn chars_eq(a: &Vec<char>, b: &Vec<char>) -> (r: bool)
    ensures
        r == (a@ == b@),
{
    if a.len() != b.len() {
        return false;
    }
    let mut i: usize = 0;
    while i < a.len()
        invariant
            i <= a.len(),
            a.len() == b.len(),
            a@.take(i as int) == b@.take(i as int),
        decreases a.len() - i,
    {
        if a[i] != b[i] {
            return false;
        }
        i += 1;
    }
    assert(a@.take(a.len() as int) == a@);
    assert(b@.take(b.len() as int) == b@);
    true
}

/// Whether two strings hold the same characters.
pub fn str_eq(a: &str, b: &str) -> (r: bool)
    ensures
        r == (a@ == b@),
{
    chars_eq(&str_chars(a), &str_chars(b))
}

/// `needle` stands in `hay` at index `i`.
pub open spec fn occurs_at(hay: Seq<char>, needle: Seq<char>, i: int) -> bool {
    &&& 0 <= i
    &&& i + needle.len() <= hay.len()
    &&& hay.subrange(i, i + needle.len()) == needle
}

/// `needle` is a substring of `hay`.
pub open spec fn has_substring(hay: Seq<char>, needle: Seq<char>) -> bool {
    exists|i: int| occurs_at(hay, needle, i)
}

/// `prefix` stands at the start of `s`.
pub open spec fn has_prefix(s: Seq<char>, prefix: Seq<char>) -> bool {
    occurs_at(s, prefix, 0)
}

/// Whether `needle` stands in `hay` at index `i`.
pub fn matches_at(hay: &Vec<char>, needle: &Vec<char>, i: usize) -> (r: bool)
    ensures
        r == occurs_at(hay@, needle@, i as int),
{
    if needle.len() > hay.len() || i > hay.len() - needle.len() {
        return false;
    }
    let mut k: usize = 0;
    while k < needle.len()
        invariant
            k <= needle.len(),
            i + needle.len() <= hay.len(),
            hay@.subrange(i as int, i + k) == needle@.take(k as int),
        decreases needle.len() - k,
    {
        if hay[i + k] != needle[k] {
            return false;
        }
        k += 1;
    }
    assert(needle@.take(needle.len() as int) == needle@);
    true
}

/// Whether `prefix` stands at the start of `s`.
pub fn starts_with(s: &Vec<char>, prefix: &Vec<char>) -> (r: bool)
    ensures
        r == has_prefix(s@, prefix@),
{
    matches_at(s, prefix, 0)
}

/// A first index at or after `from` where `needle` stands in `hay`, if any.
pub fn find_from(hay: &Vec<char>, needle: &Vec<char>, from: usize) -> (r: Option<usize>)
    ensures
        match r {
            Some(i) => from <= i && occurs_at(hay@, needle@, i as int) && forall|j: int|
                from <= j < i ==> !occurs_at(hay@, needle@, j),
            None => forall|j: int| from <= j ==> !occurs_at(hay@, needle@, j),
        },
{
    if needle.len() > hay.len() {
        return None;
    }
    let last: usize = hay.len() - needle.len();
    if from > last {
        return None;
    }
    let mut i: usize = from;
    loop
        invariant
            from <= i <= last,
            last == hay.len() - needle.len(),
            forall|j: int| from <= j < i ==> !occurs_at(hay@, needle@, j),
        decreases last - i,
    {
        if matches_at(hay, needle, i) {
            return Some(i);
        }
        if i == last {
            return None;
        }
        i += 1;
    }
}

/// Whether `needle` is a substring of `hay`.
pub fn contains(hay: &Vec<char>, needle: &Vec<char>) -> (r: bool)
    ensures
        r == has_substring(hay@, needle@),
{
    find_from(hay, needle, 0).is_some()
}

/// The first index at or after `i` that holds no whitespace, or the length.
pub open spec fn skip_ws(s: Seq<char>, i: int) -> int
    decreases s.len() - i,
{
    if 0 <= i < s.len() && is_whitespace(s[i]) {
        skip_ws(s, i + 1)
    } else {
        i
    }
}

/// The first index at or after `i` that holds whitespace, or the length.
pub open spec fn skip_non_ws(s: Seq<char>, i: int) -> int
    decreases s.len() - i,
{
    if 0 <= i < s.len() && !is_whitespace(s[i]) {
        skip_non_ws(s, i + 1)
    } else {
        i
    }
}

/// The first index at or after `from` that holds no whitespace.
pub(crate) fn skip_whitespace(s: &Vec<char>, from: usize) -> (r: usize)
    requires
        from <= s.len(),
    ensures
        r == skip_ws(s@, from as int),
        from <= r <= s.len(),
{
    let mut i: usize = from;
    while i < s.len() && char_is_whitespace(s[i])
        invariant
            from <= i <= s.len(),
            skip_ws(s@, from as int) == skip_ws(s@, i as int),
        decreases s.len() - i,
    {
        i += 1;
    }
    i
}

/// The first index at or after `from` that holds whitespace.
pub(crate) fn skip_non_whitespace(s: &Vec<char>, from: usize) -> (r: usize)
    requires
        from <= s.len(),
    ensures
        r == skip_non_ws(s@, from as int),
        from <= r <= s.len(),
{
    let mut i: usize = from;
    while i < s.len() && !char_is_whitespace(s[i])
        invariant
            from <= i <= s.len(),
            skip_non_ws(s@, from as int) == skip_non_ws(s@, i as int),
        decreases s.len() - i,
    {
        i += 1;
    }
    i
}

/// `s` without its trailing whitespace.
pub open spec fn trim_end(s: Seq<char>) -> Seq<char>
    decreases s.len(),
{
    if s.len() > 0 && is_whitespace(s.last()) {
        trim_end(s.drop_last())
    } else {
        s
    }
}

/// `s` without its leading whitespace.
pub open spec fn trim_start(s: Seq<char>) -> Seq<char> {
    s.skip(skip_ws(s, 0))
}

/// `s` without its leading and trailing whitespace.
pub open spec fn trim(s: Seq<char>) -> Seq<char> {
    trim_end(trim_start(s))
}

/// `s` without its leading and trailing whitespace.
pub fn trimmed(s: &Vec<char>) -> (out: Vec<char>)
    ensures
        out@ == trim(s@),
{
    let a: usize = skip_whitespace(s, 0);
    let mut b: usize = s.len();
    while b > a && char_is_whitespace(s[b - 1])
        invariant
            a <= b <= s.len(),
            trim_end(s@.subrange(a as int, b as int)) == trim(s@),
        decreases b,
    {
        assert(s@.subrange(a as int, b as int).drop_last() == s@.subrange(a as int, b - 1));
        b -= 1;
    }
    slice(s, a, b)
}

/// The first index at or after `i` that holds `c`, or the length.
pub open spec fn find_char(s: Seq<char>, c: char, i: int) -> int
    decreases s.len() - i,
{
    if 0 <= i < s.len() && s[i] != c {
        find_char(s, c, i + 1)
    } else {
        i
    }
}

/// The first index at or after `from` that holds `c`.
pub(crate) fn index_of_char(s: &Vec<char>, c: char, from: usize) -> (r: usize)
    requires
        from <= s.len(),
    ensures
        r == find_char(s@, c, from as int),
        from <= r <= s.len(),
{
    let mut i: usize = from;
    while i < s.len() && s[i] != c
        invariant
            from <= i <= s.len(),
            find_char(s@, c, from as int) == find_char(s@, c, i as int),
        decreases s.len() - i,
    {
        i += 1;
    }
    i
}

/// The pieces of `s` from index `i` on that lie between occurrences of `sep`.
pub open spec fn split_from(s: Seq<char>, sep: char, i: int) -> Seq<Seq<char>>
    decreases s.len() - i,
{
    let j = find_char(s, sep, i);
    if 0 <= i <= j < s.len() {
        seq![s.subrange(i, j)] + split_from(s, sep, j + 1)
    } else {
        seq![s.subrange(i, s.len() as int)]
    }
}

/// The pieces of `s` that lie between occurrences of `sep`: one more piece
/// than there are separators.
pub open spec fn split(s: Seq<char>, sep: char) -> Seq<Seq<char>> {
    split_from(s, sep, 0)
}

/// The pieces of `s` that lie between occurrences of `sep`.
pub fn split_chars(s: &Vec<char>, sep: char) -> (out: Vec<Vec<char>>)
    ensures
        rows(out@) == split(s@, sep),
{
    let mut out: Vec<Vec<char>> = Vec::new();
    let mut i: usize = 0;
    loop
        invariant_except_break
            split(s@, sep) == rows(out@) + split_from(s@, sep, i as int),
        invariant
            i <= s.len(),
        ensures
            rows(out@) == split(s@, sep),
        decreases s.len() - i,
    {
        let j: usize = index_of_char(s, sep, i);
        let piece = slice(s, i, j);
        out.push(piece);
        if j < s.len() {
            i = j + 1;
        } else {
            break ;
        }
    }
    out
}

/// `s` without one trailing carriage return.
pub open spec fn strip_cr(s: Seq<char>) -> Seq<char> {
    if s.len() > 0 && s.last() == '\r' {
        s.drop_last()
    } else {
        s
    }
}

/// The lines of `s` from index `i` on.
pub open spec fn lines_from(s: Seq<char>, i: int) -> Seq<Seq<char>>
    decreases s.len() - i,
{
    let j = find_char(s, '\n', i);
    if 0 <= i <= j < s.len() {
        seq![strip_cr(s.subrange(i, j))] + lines_from(s, j + 1)
    } else if 0 <= i < s.len() {
        seq![s.subrange(i, s.len() as int)]
    } else {
        Seq::empty()
    }
}

/// The lines of a text. A line ends at a line feed, which is not part of
/// it, nor is a carriage return directly before that line feed. A last line
/// without a line feed counts if it is not empty.
pub open spec fn lines(s: Seq<char>) -> Seq<Seq<char>> {
    lines_from(s, 0)
}

/// The lines of a text.
pub fn split_lines(s: &Vec<char>) -> (out: Vec<Vec<char>>)
    ensures
        rows(out@) == lines(s@),
{
    let mut out: Vec<Vec<char>> = Vec::new();
    let mut i: usize = 0;
    while i < s.len()
        invariant
            i <= s.len(),
            lines(s@) == rows(out@) + lines_from(s@, i as int),
        decreases s.len() - i,
    {
        let j: usize = index_of_char(s, '\n', i);
        if j < s.len() {
            let end: usize = if j > i && s[j - 1] == '\r' {
                j - 1
            } else {
                j
            };
            let piece = slice(s, i, end);
            assert(piece@ == strip_cr(s@.subrange(i as int, j as int)));
            out.push(piece);
            i = j + 1;
        } else {
            let piece = slice(s, i, j);
            out.push(piece);
            i = j;
        }
    }
    out
}

/// The maximal runs of non-whitespace in `s` from index `i` on.
pub open spec fn words_from(s: Seq<char>, i: int) -> Seq<Seq<char>>
    decreases s.len() - i,
{
    let a = skip_ws(s, i);
    let b = skip_non_ws(s, a);
    if 0 <= i <= a < b <= s.len() {
        seq![s.subrange(a, b)] + words_from(s, b)
    } else {
        Seq::empty()
    }
}

/// The maximal runs of non-whitespace in `s`.
pub open spec fn words(s: Seq<char>) -> Seq<Seq<char>> {
    words_from(s, 0)
}

/// The maximal runs of non-whitespace in `s` from index `from` on.
pub(crate) fn split_words(s: &Vec<char>, from: usize) -> (out: Vec<Vec<char>>)
    requires
        from <= s.len(),
    ensures
        rows(out@) == words_from(s@, from as int),
{
    let mut out: Vec<Vec<char>> = Vec::new();
    let mut i: usize = from;
    loop
        invariant_except_break
            words_from(s@, from as int) == rows(out@) + words_from(s@, i as int),
        invariant
            i <= s.len(),
        ensures
            rows(out@) == words_from(s@, from as int),
        decreases s.len() - i,
    {
        let a: usize = skip_whitespace(s, i);
        let b: usize = skip_non_whitespace(s, a);
        if a < b {
            let piece = slice(s, a, b);
            out.push(piece);
            i = b;
        } else {
            break ;
        }
    }
    out
}

/// The maximal runs of non-whitespace in `s`.
pub fn split_whitespace(s: &str) -> (out: Vec<String>)
    ensures
        views(out@) == words(s@),
{
    to_strings(&split_words(&str_chars(s), 0))
}

/// The pieces of `s` that lie between occurrences of `sep`.
pub fn split_text(s: &str, sep: char) -> (out: Vec<String>)
    ensures
        views(out@) == split(s@, sep),
{
    to_strings(&split_chars(&str_chars(s), sep))
}

/// `s` without its leading and trailing whitespace.
pub fn trim_text(s: &str) -> (out: String)
    ensures
        out@ == trim(s@),
{
    to_string(&trimmed(&str_chars(s)))
}

/// Whether `needle` is a substring of `hay`.
pub fn text_contains(hay: &str, needle: &str) -> (r: bool)
    ensures
        r == has_substring(hay@, needle@),
{
    contains(&str_chars(hay), &str_chars(needle))
}

/// The first `n` pieces of `parts`, with `sep` between each two.
pub open spec fn join_upto(parts: Seq<Seq<char>>, sep: Seq<char>, n: int) -> Seq<char>
    decreases n,
{
    if n <= 0 {
        Seq::empty()
    } else if n == 1 {
        parts[0]
    } else {
        join_upto(parts, sep, n - 1) + sep + parts[n - 1]
    }
}

/// The pieces of `parts` with `sep` between each two.
pub open spec fn join(parts: Seq<Seq<char>>, sep: Seq<char>) -> Seq<char> {
    join_upto(parts, sep, parts.len() as int)
}

/// The decimal digit for a number below ten.
pub open spec fn digit(d: nat) -> char {
    if d == 0 {
        '0'
    } else if d == 1 {
        '1'
    } else if d == 2 {
        '2'
    } else if d == 3 {
        '3'
    } else if d == 4 {
        '4'
    } else if d == 5 {
        '5'
    } else if d == 6 {
        '6'
    } else if d == 7 {
        '7'
    } else if d == 8 {
        '8'
    } else {
        '9'
    }
}

/// The decimal numeral of `n`, without leading zeros.
pub open spec fn decimal(n: nat) -> Seq<char>
    decreases n,
{
    if n < 10 {
        seq![digit(n)]
    } else {
        decimal(n / 10).push(digit(n % 10))
    }
}

/// The decimal digit for a number below ten.
pub(crate) fn digit_char(d: u8) -> (c: char)
    requires
        d < 10,
    ensures
        c == digit(d as nat),
{
    if d == 0 {
        '0'
    } else if d == 1 {
        '1'
    } else if d == 2 {
        '2'
    } else if d == 3 {
        '3'
    } else if d == 4 {
        '4'
    } else if d == 5 {
        '5'
    } else if d == 6 {
        '6'
    } else if d == 7 {
        '7'
    } else if d == 8 {
        '8'
    } else {
        '9'
    }
}

/// The decimal numeral of `n`.
pub fn decimal_chars(n: u128) -> (out: Vec<char>)
    ensures
        out@ == decimal(n as nat),
    decreases n,
{
    if n < 10 {
        let mut out: Vec<char> = Vec::new();
        out.push(digit_char(n as u8));
        out
    } else {
        let mut out = decimal_chars(n / 10);
        out.push(digit_char((n % 10) as u8));
        out
    }
}

/// The decimal numeral of `n`.
pub fn decimal_string(n: u128) -> (out: String)
    ensures
        out@ == decimal(n as nat),
{
    to_string(&decimal_chars(n))
}

/// The string of all of `v`.
pub fn to_string(v: &Vec<char>) -> (out: String)
    ensures
        out@ == v@,
{
    chars_string(v, 0, v.len())
}

/// The strings of all of `v`.
pub fn to_strings(v: &Vec<Vec<char>>) -> (out: Vec<String>)
    ensures
        views(out@) == rows(v@),
{
    let mut out: Vec<String> = Vec::new();
    let mut i: usize = 0;
    while i < v.len()
        invariant
            i <= v.len(),
            views(out@) == rows(v@).take(i as int),
        decreases v.len() - i,
    {
        let s = to_string(&v[i]);
        out.push(s);
        assert(rows(v@).take(i + 1) =~= rows(v@).take(i as int).push(s@));
        i += 1;
    }
    out
}

/// The lines of a text.
pub fn text_lines(s: &str) -> (out: Vec<String>)
    ensures
        views(out@) == lines(s@),
{
    let chars = str_chars(s);
    let ls = split_lines(&chars);
    to_strings(&ls)
}

/// `a` followed by `b`.
pub fn concat2(a: &str, b: &str) -> (out: String)
    ensures
        out@ == a@ + b@,
{
    let mut out = String::from_str(a);
    out.append(b);
    out
}

/// `a`, `b` and `c` in a row.
pub fn concat3(a: &str, b: &str, c: &str) -> (out: String)
    ensures
        out@ == a@ + b@ + c@,
{
    let mut out = String::from_str(a);
    out.append(b);
    out.append(c);
    out
}

/// The strings of `parts` with `sep` between each two.
pub fn join_strings(parts: &Vec<String>, sep: &str) -> (out: String)
    ensures
        out@ == join(views(parts@), sep@),
{
    let mut out = String::new();
    let mut i: usize = 0;
    while i < parts.len()
        invariant
            i <= parts.len(),
            out@ == join_upto(views(parts@), sep@, i as int),
        decreases parts.len() - i,
    {
        if i > 0 {
            out.append(sep);
        }
        out.append(parts[i].as_str());
        i += 1;
    }
    out
}

/// `hay` from index `i` on, with every occurrence of `needle` replaced by
/// `rep`: the occurrences are taken from left to right, and none overlaps
/// the one before it. An empty `needle` occurs before every character and at
/// the end.
pub open spec fn replaced_from(hay: Seq<char>, needle: Seq<char>, rep: Seq<char>, i: int) -> Seq<
    char,
>
    decreases hay.len() - i,
{
    if i < 0 || i > hay.len() {
        Seq::empty()
    } else if needle.len() == 0 {
        if i < hay.len() {
            rep + seq![hay[i]] + replaced_from(hay, needle, rep, i + 1)
        } else {
            rep
        }
    } else if occurs_at(hay, needle, i) {
        rep + replaced_from(hay, needle, rep, i + needle.len())
    } else if i < hay.len() {
        seq![hay[i]] + replaced_from(hay, needle, rep, i + 1)
    } else {
        Seq::empty()
    }
}

/// `hay` with every occurrence of `needle` replaced by `rep`.
pub open spec fn replaced(hay: Seq<char>, needle: Seq<char>, rep: Seq<char>) -> Seq<char> {
    replaced_from(hay, needle, rep, 0)
}

/// `hay` with every occurrence of `needle` replaced by `rep`.
pub fn replace_chars(hay: &Vec<char>, needle: &Vec<char>, rep: &Vec<char>) -> (out: Vec<char>)
    ensures
        out@ == replaced(hay@, needle@, rep@),
{
    let mut out: Vec<char> = Vec::new();
    let mut i: usize = 0;
    loop
        invariant_except_break
            replaced(hay@, needle@, rep@) == out@ + replaced_from(hay@, needle@, rep@, i as int),
        invariant
            i <= hay.len(),
        ensures
            out@ == replaced(hay@, needle@, rep@),
        decreases hay.len() - i,
    {
        if needle.len() == 0 {
            extend(&mut out, rep);
            if i < hay.len() {
                out.push(hay[i]);
                i += 1;
            } else {
                break ;
            }
        } else if matches_at(hay, needle, i) {
            extend(&mut out, rep);
            i += needle.len();
        } else if i < hay.len() {
            out.push(hay[i]);
            i += 1;
        } else {
            break ;
        }
    }
    out
}

/// `hay` with every occurrence of `needle` replaced by `rep`.
pub fn replace_text(hay: &str, needle: &str, rep: &str) -> (out: String)
    ensures
        out@ == replaced(hay@, needle@, rep@),
{
    to_string(&replace_chars(&str_chars(hay), &str_chars(needle), &str_chars(rep)))
}

/// A word: not empty, and without whitespace.
pub open spec fn is_word(w: Seq<char>) -> bool {
    w.len() > 0 && forall|i: int| 0 <= i < w.len() ==> !is_whitespace(#[trigger] w[i])
}

/// Skipping whitespace ends in the text, behind whitespace only, and not
/// on whitespace.
pub proof fn lemma_skip_ws(s: Seq<char>, i: int)
    requires
        0 <= i <= s.len(),
    ensures
        i <= skip_ws(s, i) <= s.len(),
        forall|k: int| i <= k < skip_ws(s, i) ==> is_whitespace(s[k]),
        skip_ws(s, i) < s.len() ==> !is_whitespace(s[skip_ws(s, i)]),
    decreases s.len() - i,
{
    if i < s.len() && is_whitespace(s[i]) {
        lemma_skip_ws(s, i + 1);
    }
}

/// Skipping what is no whitespace ends in the text, behind no whitespace,
/// and not on what is none.
pub proof fn lemma_skip_non_ws(s: Seq<char>, i: int)
    requires
        0 <= i <= s.len(),
    ensures
        i <= skip_non_ws(s, i) <= s.len(),
        forall|k: int| i <= k < skip_non_ws(s, i) ==> !is_whitespace(s[k]),
        skip_non_ws(s, i) < s.len() ==> is_whitespace(s[skip_non_ws(s, i)]),
    decreases s.len() - i,
{
    if i < s.len() && !is_whitespace(s[i]) {
        lemma_skip_non_ws(s, i + 1);
    }
}

/// Where a text holds `c` at index `n` and not before, `n` is the first
/// index that holds it.
pub proof fn lemma_find_char_at(s: Seq<char>, c: char, i: int, n: int)
    requires
        0 <= i <= n < s.len(),
        s[n] == c,
        forall|k: int| i <= k < n ==> s[k] != c,
    ensures
        find_char(s, c, i) == n,
    decreases n - i,
{
    if i < n {
        lemma_find_char_at(s, c, i + 1, n);
    }
}

proof fn lemma_skip_ws_shift(p: Seq<char>, s: Seq<char>, j: int)
    requires
        0 <= j <= s.len(),
    ensures
        skip_ws(p + s, p.len() + j) == p.len() + skip_ws(s, j),
    decreases s.len() - j,
{
    if j < s.len() && is_whitespace(s[j]) {
        lemma_skip_ws_shift(p, s, j + 1);
    }
}

proof fn lemma_skip_non_ws_shift(p: Seq<char>, s: Seq<char>, j: int)
    requires
        0 <= j <= s.len(),
    ensures
        skip_non_ws(p + s, p.len() + j) == p.len() + skip_non_ws(s, j),
    decreases s.len() - j,
{
    if j < s.len() && !is_whitespace(s[j]) {
        lemma_skip_non_ws_shift(p, s, j + 1);
    }
}

/// The words of a text behind a prefix are the words of the text alone.
pub proof fn lemma_words_shift(p: Seq<char>, s: Seq<char>, j: int)
    requires
        0 <= j <= s.len(),
    ensures
        words_from(p + s, p.len() + j) == words_from(s, j),
    decreases s.len() - j,
{
    lemma_skip_ws_shift(p, s, j);
    lemma_skip_ws(s, j);
    let a = skip_ws(s, j);
    lemma_skip_non_ws_shift(p, s, a);
    lemma_skip_non_ws(s, a);
    let b = skip_non_ws(s, a);
    if a < b {
        lemma_words_shift(p, s, b);
        assert((p + s).subrange(p.len() + a, p.len() + b) == s.subrange(a, b));
    }
}

proof fn lemma_skip_ws_prefix(s: Seq<char>, t: Seq<char>, i: int)
    requires
        0 <= i <= s.len(),
    ensures
        skip_ws(s, i) < s.len() ==> skip_ws(s + t, i) == skip_ws(s, i),
        skip_ws(s, i) >= s.len() ==> skip_ws(s + t, i) == skip_ws(s + t, s.len() as int),
    decreases s.len() - i,
{
    if i < s.len() && is_whitespace(s[i]) {
        lemma_skip_ws_prefix(s, t, i + 1);
    }
}

proof fn lemma_skip_non_ws_prefix(s: Seq<char>, t: Seq<char>, i: int)
    requires
        0 <= i <= s.len(),
    ensures
        skip_non_ws(s, i) < s.len() ==> skip_non_ws(s + t, i) == skip_non_ws(s, i),
        skip_non_ws(s, i) >= s.len() ==> skip_non_ws(s + t, i) == skip_non_ws(
            s + t,
            s.len() as int,
        ),
    decreases s.len() - i,
{
    if i < s.len() && !is_whitespace(s[i]) {
        lemma_skip_non_ws_prefix(s, t, i + 1);
    }
}

/// Where a second text is empty or starts with whitespace, the words of
/// both in a row are the words of the first and then those of the second.
pub proof fn lemma_words_append(s: Seq<char>, t: Seq<char>, i: int)
    requires
        0 <= i <= s.len(),
        t.len() == 0 || is_whitespace(t[0]),
    ensures
        words_from(s + t, i) == words_from(s, i) + words_from(t, 0),
    decreases s.len() - i,
{
    let st = s + t;
    lemma_skip_ws(s, i);
    lemma_skip_ws_prefix(s, t, i);
    let a = skip_ws(s, i);
    if a < s.len() {
        lemma_skip_non_ws(s, a);
        lemma_skip_non_ws_prefix(s, t, a);
        let b = skip_non_ws(s, a);
        lemma_words_append(s, t, b);
        assert(st.subrange(a, b) == s.subrange(a, b));
    } else {
        lemma_words_shift(s, t, 0);
    }
}

/// A word is its own single word.
pub proof fn lemma_words_of_word(w: Seq<char>)
    requires
        is_word(w),
    ensures
        words(w) == seq![w],
{
    lemma_skip_all_non_ws(w, 0);
    assert(w.subrange(0, w.len() as int) == w);
    assert(words_from(w, w.len() as int) == Seq::<Seq<char>>::empty());
}

proof fn lemma_skip_all_non_ws(w: Seq<char>, i: int)
    requires
        0 <= i <= w.len(),
        forall|k: int| 0 <= k < w.len() ==> !is_whitespace(#[trigger] w[k]),
    ensures
        skip_non_ws(w, i) == w.len(),
    decreases w.len() - i,
{
    if i < w.len() {
        lemma_skip_all_non_ws(w, i + 1);
    }
}

/// Every word of a text is a word.
pub proof fn lemma_words_are_words(s: Seq<char>, i: int)
    requires
        0 <= i <= s.len(),
    ensures
        forall|k: int| 0 <= k < words_from(s, i).len() ==> is_word(#[trigger] words_from(s, i)[k]),
    decreases s.len() - i,
{
    lemma_skip_ws(s, i);
    let a = skip_ws(s, i);
    lemma_skip_non_ws(s, a);
    let b = skip_non_ws(s, a);
    if a < b {
        lemma_words_are_words(s, b);
        assert forall|k: int| 0 <= k < words_from(s, i).len() implies is_word(
            #[trigger] words_from(s, i)[k],
        ) by {
            if k > 0 {
                assert(words_from(s, i)[k] == words_from(s, b)[k - 1]);
            }
        }
    }
}

/// Words with one space between each two are the words of what they make.
pub proof fn lemma_words_of_join(parts: Seq<Seq<char>>, n: int)
    requires
        0 <= n <= parts.len(),
        forall|k: int| 0 <= k < parts.len() ==> is_word(#[trigger] parts[k]),
    ensures
        words(join_upto(parts, seq![' '], n)) == parts.take(n),
        forall|k: int|
            0 <= k < join_upto(parts, seq![' '], n).len() ==> #[trigger] join_upto(
                parts,
                seq![' '],
                n,
            )[k] != '\n',
    decreases n,
{
    let sep = seq![' '];
    if n == 1 {
        lemma_words_of_word(parts[0]);
    } else if n > 1 {
        lemma_words_of_join(parts, n - 1);
        let head = join_upto(parts, sep, n - 1);
        let w = parts[n - 1];
        let tail = sep + w;
        assert(head + sep + w == head + tail);
        lemma_words_append(head, tail, 0);
        lemma_words_shift(sep, w, 0);
        lemma_words_of_word(w);
    }
}

} // verus!
