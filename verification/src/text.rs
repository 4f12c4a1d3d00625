//! Character-level helpers shared by the rest of the crate.
//!
//! Everything here is stated over `Seq<char>`, the view of `str` and
//! `String`, so that callers can phrase their contracts in terms of
//! characters rather than bytes.

use vstd::prelude::*;
use vstd::string::*;

verus! {

/// The first `n` characters of `s`, or all of `s` when it is shorter.
pub open spec fn head(s: Seq<char>, n: nat) -> Seq<char> {
    if s.len() >= n {
        s.subrange(0, n as int)
    } else {
        s
    }
}

/// The last `n` characters of `s`, or all of `s` when it is shorter.
pub open spec fn tail(s: Seq<char>, n: nat) -> Seq<char> {
    if s.len() >= n {
        s.subrange(s.len() - n, s.len() as int)
    } else {
        s
    }
}

/// The lowercase hexadecimal digit that stands for `n`, for `0 <= n < 16`.
pub open spec fn hex_digit(n: int) -> char {
    if n < 10 {
        (48 + n) as char
    } else {
        (87 + n) as char
    }
}

/// The ASCII lowercase form of `c`: `'A'..='Z'` map to `'a'..='z'`, every
/// other character maps to itself.
pub open spec fn lower(c: char) -> char {
    if 'A' <= c <= 'Z' {
        ((c as int) + 32) as char
    } else {
        c
    }
}

/// Takes the first `n` characters of `s`, or all of `s` when it is shorter.
pub fn first_chars<'a>(s: &'a str, n: usize) -> (r: &'a str)
    ensures
        r@ == head(s@, n as nat),
{
    let len = s.unicode_len();
    if len >= n {
        s.substring_char(0, n)
    } else {
        s
    }
}

/// Takes the last `n` characters of `s`, or all of `s` when it is shorter.
pub fn last_chars<'a>(s: &'a str, n: usize) -> (r: &'a str)
    ensures
        r@ == tail(s@, n as nat),
{
    let len = s.unicode_len();
    if len >= n {
        s.substring_char(len - n, len)
    } else {
        s
    }
}

/// One hexadecimal digit as a string of length one.
pub(crate) fn hex_digit_str(n: u8) -> (r: &'static str)
    requires
        n < 16,
    ensures
        r@ == seq![hex_digit(n as int)],
{
    let digits = "0123456789abcdef";
    proof {
        reveal_strlit("0123456789abcdef");
    }
    let at: usize = n as usize;
    let r = digits.substring_ascii(at, at + 1);
    assert(r@ =~= seq![hex_digit(n as int)]);
    r
}

/// One ASCII letter, lower-cased, as a string of length one.
pub(crate) fn lower_letter_str(c: char) -> (r: &'static str)
    requires
        'A' <= c <= 'Z',
    ensures
        r@ == seq![lower(c)],
{
    let letters = "abcdefghijklmnopqrstuvwxyz";
    proof {
        reveal_strlit("abcdefghijklmnopqrstuvwxyz");
    }
    let at: usize = (c as u32 - 65) as usize;
    let r = letters.substring_ascii(at, at + 1);
    assert(r@ =~= seq![lower(c)]);
    r
}

/// The characters of `s`, in order.
pub fn chars_of(s: &str) -> (v: Vec<char>)
    ensures
        v@ == s@,
{
    let mut v: Vec<char> = Vec::new();
    for c in it: s.chars()
        invariant
            v@ == it.seq().take(it.index() as int),
    {
        v.push(c);
    }
    v
}

/// Whether two texts hold the same characters.
pub fn same_text(a: &str, b: &str) -> (same: bool)
    ensures
        same == (a@ == b@),
{
    let left = chars_of(a);
    let right = chars_of(b);
    if left.len() != right.len() {
        return false;
    }
    let mut i: usize = 0;
    while i < left.len()
        invariant
            i <= left.len(),
            left.len() == right.len(),
            left@ == a@,
            right@ == b@,
            forall|j: int| 0 <= j < i ==> left@[j] == right@[j],
        decreases left.len() - i,
    {
        if left[i] != right[i] {
            return false;
        }
        i += 1;
    }
    assert(a@ =~= b@);
    true
}

/// Whether `c` is white space: the characters that carry the Unicode
/// property of that name.
pub open spec fn is_space(c: char) -> bool {
    let n = c as u32;
    ||| 0x09 <= n <= 0x0d
    ||| n == 0x20
    ||| n == 0x85
    ||| n == 0xa0
    ||| n == 0x1680
    ||| 0x2000 <= n <= 0x200a
    ||| n == 0x2028
    ||| n == 0x2029
    ||| n == 0x202f
    ||| n == 0x205f
    ||| n == 0x3000
}

/// Tells whether `c` is white space.
pub fn is_space_char(c: char) -> (space: bool)
    ensures
        space == is_space(c),
{
    let n = c as u32;
    (0x09 <= n && n <= 0x0d) || n == 0x20 || n == 0x85 || n == 0xa0 || n == 0x1680 || (0x2000 <= n
        && n <= 0x200a) || n == 0x2028 || n == 0x2029 || n == 0x202f || n == 0x205f || n == 0x3000
}

/// The first position at or after `from` whose character is white space
/// (`space` set) or is not (`space` clear); the length of `s` if there is
/// none.
pub open spec fn boundary(s: Seq<char>, from: int, space: bool) -> int
    decreases s.len() - from,
{
    if from < 0 || from >= s.len() {
        s.len() as int
    } else if is_space(s[from]) == space {
        from
    } else {
        boundary(s, from + 1, space)
    }
}

/// Finds the next position at or after `from` that is white space, or the
/// next that is not.
pub(crate) fn find_boundary(s: &[char], from: usize, space: bool) -> (at: usize)
    requires
        from <= s@.len(),
    ensures
        at == boundary(s@, from as int, space),
        from <= at <= s@.len(),
        at < s@.len() ==> is_space(s@[at as int]) == space,
{
    let mut i = from;
    while i < s.len() && is_space_char(s[i]) != space
        invariant
            from <= i <= s@.len(),
            boundary(s@, from as int, space) == boundary(s@, i as int, space),
        decreases s@.len() - i,
    {
        i += 1;
    }
    i
}

/// Where the word number `n` (counting from zero) lies among the words that
/// start at or after `from`. Words are the maximal runs of characters that
/// are not white space.
pub open spec fn word_span(s: Seq<char>, from: int, n: nat) -> Option<(int, int)>
    decreases n,
{
    let start = boundary(s, from, false);
    let end = boundary(s, start, true);
    if start >= s.len() {
        None
    } else if n == 0 {
        Some((start, end))
    } else {
        word_span(s, end, (n - 1) as nat)
    }
}

/// The word number `n` of `s`, counting from zero.
pub open spec fn word(s: Seq<char>, n: nat) -> Option<Seq<char>> {
    match word_span(s, 0, n) {
        Some((start, end)) => Some(s.subrange(start, end)),
        None => None,
    }
}

/// Finds the word number `n` of `s`.
pub fn find_word(s: &[char], n: usize) -> (span: Option<(usize, usize)>)
    ensures
        match span {
            Some((start, end)) => word_span(s@, 0, n as nat) == Some((start as int, end as int))
                && start < end <= s@.len(),
            None => word_span(s@, 0, n as nat) is None,
        },
{
    let mut from: usize = 0;
    let mut left: usize = n;
    loop
        invariant
            from <= s@.len(),
            word_span(s@, 0, n as nat) == word_span(s@, from as int, left as nat),
        decreases left,
    {
        let start = find_boundary(s, from, false);
        if start >= s.len() {
            return None;
        }
        let end = find_boundary(s, start, true);
        if left == 0 {
            return Some((start, end));
        }
        from = end;
        left -= 1;
    }
}

/// Whether `needle` stands in `hay` at position `at`.
pub open spec fn occurs_at(hay: Seq<char>, needle: Seq<char>, at: int) -> bool {
    0 <= at && at + needle.len() <= hay.len() && hay.subrange(at, at + needle.len()) == needle
}

/// Whether `needle` stands somewhere in `hay`.
pub open spec fn contains_text(hay: Seq<char>, needle: Seq<char>) -> bool {
    exists|at: int| occurs_at(hay, needle, at)
}

/// Tells whether `needle` stands in `hay` at position `at`.
pub(crate) fn stands_at(hay: &[char], needle: &[char], at: usize) -> (found: bool)
    requires
        at + needle@.len() <= hay@.len(),
    ensures
        found == occurs_at(hay@, needle@, at as int),
{
    let size = hay.len();
    let mut i: usize = 0;
    while i < needle.len()
        invariant
            i <= needle@.len(),
            size == hay@.len(),
            at + needle@.len() <= hay@.len(),
            forall|j: int| 0 <= j < i ==> hay@[at + j] == needle@[j],
        decreases needle@.len() - i,
    {
        if hay[at + i] != needle[i] {
            assert(hay@.subrange(at as int, at + needle@.len())[i as int] != needle@[i as int]);
            return false;
        }
        i += 1;
    }
    assert(hay@.subrange(at as int, at + needle@.len()) =~= needle@);
    true
}

/// Tells whether `needle` stands somewhere in `hay`.
pub fn contains_chars(hay: &[char], needle: &[char]) -> (found: bool)
    ensures
        found == contains_text(hay@, needle@),
{
    if needle.len() > hay.len() {
        assert(forall|at: int| !occurs_at(hay@, needle@, at));
        return false;
    }
    let last = hay.len() - needle.len();
    let mut at: usize = 0;
    loop
        invariant
            at <= last,
            last == hay@.len() - needle@.len(),
            forall|k: int| 0 <= k < at ==> !occurs_at(hay@, needle@, k),
        decreases last - at,
    {
        if stands_at(hay, needle, at) {
            return true;
        }
        if at == last {
            assert(forall|k: int| !occurs_at(hay@, needle@, k));
            return false;
        }
        at += 1;
    }
}

/// The first position at or after `from` that holds a line feed; the length
/// of `s` if there is none.
pub open spec fn line_end(s: Seq<char>, from: int) -> int
    decreases s.len() - from,
{
    if from < 0 || from >= s.len() {
        s.len() as int
    } else if s[from] == '\n' {
        from
    } else {
        line_end(s, from + 1)
    }
}

/// Finds the end of the line that starts at `from`.
pub(crate) fn find_line_end(s: &[char], from: usize) -> (at: usize)
    requires
        from <= s@.len(),
    ensures
        at == line_end(s@, from as int),
        from <= at <= s@.len(),
{
    let mut i = from;
    while i < s.len() && s[i] != '\n'
        invariant
            from <= i <= s@.len(),
            line_end(s@, from as int) == line_end(s@, i as int),
        decreases s@.len() - i,
    {
        i += 1;
    }
    i
}

/// One past the last position before `upto` whose character is not white
/// space; zero if there is none.
pub open spec fn back_boundary(s: Seq<char>, upto: int) -> int
    decreases upto,
{
    if upto <= 0 || upto > s.len() {
        0
    } else if !is_space(s[upto - 1]) {
        upto
    } else {
        back_boundary(s, upto - 1)
    }
}

/// Where `s` starts and ends once white space is taken off both ends.
pub open spec fn trim_span(s: Seq<char>) -> (int, int) {
    let start = boundary(s, 0, false);
    if start >= s.len() {
        (0, 0)
    } else {
        (start, back_boundary(s, s.len() as int))
    }
}

/// `s` without the white space at its ends.
pub open spec fn trimmed(s: Seq<char>) -> Seq<char> {
    s.subrange(trim_span(s).0, trim_span(s).1)
}

/// Finds where `s` starts and ends once white space is taken off both ends.
pub fn find_trim(s: &[char]) -> (span: (usize, usize))
    ensures
        (span.0 as int, span.1 as int) == trim_span(s@),
        span.0 <= span.1 <= s@.len(),
{
    let start = find_boundary(s, 0, false);
    if start >= s.len() {
        return (0, 0);
    }
    let mut end = s.len();
    while is_space_char(s[end - 1])
        invariant
            start < end <= s@.len(),
            !is_space(s@[start as int]),
            back_boundary(s@, s@.len() as int) == back_boundary(s@, end as int),
        decreases end,
    {
        end -= 1;
    }
    (start, end)
}

} // verus!
