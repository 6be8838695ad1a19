//! Character-level string helpers: whitespace, trimming, prefixes, lines.

use vstd::prelude::*;

verus! {

/// Whether `c` carries the Unicode property `White_Space`.
pub open spec fn is_whitespace(c: char) -> bool {
    let n = c as u32;
    ||| 0x09 <= n <= 0x0D
    ||| n == 0x20
    ||| n == 0x85
    ||| n == 0xA0
    ||| n == 0x1680
    ||| 0x2000 <= n <= 0x200A
    ||| n == 0x2028
    ||| n == 0x2029
    ||| n == 0x202F
    ||| n == 0x205F
    ||| n == 0x3000
}

/// The number of whitespace characters at the front of `s`.
pub open spec fn leading_whitespace(s: Seq<char>) -> nat
    decreases s.len(),
{
    if s.len() > 0 && is_whitespace(s[0]) {
        1 + leading_whitespace(s.skip(1))
    } else {
        0
    }
}

/// The number of whitespace characters at the back of `s`.
pub open spec fn trailing_whitespace(s: Seq<char>) -> nat
    decreases s.len(),
{
    if s.len() > 0 && is_whitespace(s.last()) {
        1 + trailing_whitespace(s.drop_last())
    } else {
        0
    }
}

/// `s` without its leading and trailing whitespace.
pub open spec fn trimmed(s: Seq<char>) -> Seq<char> {
    let lead = leading_whitespace(s);
    if lead >= s.len() {
        Seq::empty()
    } else {
        s.subrange(lead as int, s.len() - trailing_whitespace(s))
    }
}

/// The index of the first line feed of `s` at or after `from`, or the
/// length of `s` where there is none.
pub open spec fn line_end(s: Seq<char>, from: int) -> int
    decreases s.len() - from,
{
    if from < 0 || from >= s.len() {
        s.len() as int
    } else if s[from] == '\n' {
        from
    } else {
        line_end(s, from + 1)
    }
}

/// Whether `needle` occurs in `haystack` as a contiguous run.
pub open spec fn contains_run(haystack: Seq<char>, needle: Seq<char>) -> bool {
    exists|i: int|
        0 <= i <= haystack.len() - needle.len() && #[trigger] haystack.subrange(
            i,
            i + needle.len(),
        ) == needle
}

/// A run of `n` whitespace characters that ends `s` or is followed by
/// another character is the whole leading whitespace of `s`.
pub proof fn lemma_leading_whitespace(s: Seq<char>, n: int)
    requires
        0 <= n <= s.len(),
        forall|k: int| 0 <= k < n ==> is_whitespace(#[trigger] s[k]),
        n < s.len() ==> !is_whitespace(s[n]),
    ensures
        leading_whitespace(s) == n,
    decreases n,
{
    if n > 0 {
        lemma_leading_whitespace(s.skip(1), n - 1);
    }
}

/// The mirror image of `lemma_leading_whitespace` for the back of `s`.
pub proof fn lemma_trailing_whitespace(s: Seq<char>, n: int)
    requires
        0 <= n <= s.len(),
        forall|k: int| s.len() - n <= k < s.len() ==> is_whitespace(#[trigger] s[k]),
        n < s.len() ==> !is_whitespace(s[s.len() - n - 1]),
    ensures
        trailing_whitespace(s) == n,
    decreases n,
{
    if n > 0 {
        lemma_trailing_whitespace(s.drop_last(), n - 1);
    }
}

/// Where no line feed stands in `s` from `from` up to `end`, and `end` is a
/// line feed or the end of `s`, the line that starts at `from` ends at `end`.
pub proof fn lemma_line_end(s: Seq<char>, from: int, end: int)
    requires
        0 <= from <= end <= s.len(),
        forall|k: int| from <= k < end ==> #[trigger] s[k] != '\n',
        end < s.len() ==> s[end] == '\n',
    ensures
        line_end(s, from) == end,
    decreases end - from,
{
    if from < end {
        lemma_line_end(s, from + 1, end);
    }
}

/// A line's end is never before its start, and never past the text.
pub proof fn lemma_line_end_bounds(s: Seq<char>, from: int)
    requires
        0 <= from <= s.len(),
    ensures
        from <= line_end(s, from) <= s.len(),
    decreases s.len() - from,
{
    if from < s.len() && s[from] != '\n' {
        lemma_line_end_bounds(s, from + 1);
    }
}

/// The characters of a string, in order.
pub fn to_chars(s: &str) -> (chars: Vec<char>)
    ensures
        chars@ == s@,
{
    let mut chars: Vec<char> = Vec::new();
    for c in it: s.chars()
        invariant
            it.seq() == s@,
            chars@ =~= it.seq().take(it.index() as int),
    {
        chars.push(c);
    }
    chars
}

/// Tests whether `c` carries the Unicode property `White_Space`.
pub fn char_is_whitespace(c: char) -> (b: bool)
    ensures
        b == is_whitespace(c),
{
    let n: u32 = c as u32;
    (0x09 <= n && n <= 0x0D) || n == 0x20 || n == 0x85 || n == 0xA0 || n == 0x1680 || (0x2000 <= n
        && n <= 0x200A) || n == 0x2028 || n == 0x2029 || n == 0x202F || n == 0x205F || n == 0x3000
}

/// Trims the part of `chars` between `start` and `end`: the result bounds
/// the same part without its leading and trailing whitespace.
pub fn trim_range(chars: &Vec<char>, start: usize, end: usize) -> (r: (usize, usize))
    requires
        start <= end <= chars.len(),
    ensures
        start <= r.0 <= r.1 <= end,
        chars@.subrange(r.0 as int, r.1 as int) == trimmed(
            chars@.subrange(start as int, end as int),
        ),
{
    let ghost part = chars@.subrange(start as int, end as int);
    let mut a: usize = start;
    while a < end && char_is_whitespace(chars[a])
        invariant
            start <= a <= end <= chars.len(),
            forall|k: int| start <= k < a ==> is_whitespace(#[trigger] chars@[k]),
        decreases end - a,
    {
        a += 1;
    }
    proof {
        lemma_leading_whitespace(part, a - start);
    }
    if a == end {
        return (a, a);
    }
    let mut b: usize = end;
    while b > a && char_is_whitespace(chars[b - 1])
        invariant
            start <= a < b <= end <= chars.len(),
            a < end,
            !is_whitespace(chars@[a as int]),
            forall|k: int| b <= k < end ==> is_whitespace(#[trigger] chars@[k]),
        decreases b - a,
    {
        b -= 1;
    }
    proof {
        lemma_trailing_whitespace(part, end - b);
    }
    (a, b)
}

/// Tests whether the part of `chars` between `start` and `end` begins with
/// `prefix`.
pub fn starts_with_at(chars: &Vec<char>, start: usize, end: usize, prefix: &Vec<char>) -> (b: bool)
    requires
        start <= end <= chars.len(),
    ensures
        b == prefix@.is_prefix_of(chars@.subrange(start as int, end as int)),
{
    let ghost part = chars@.subrange(start as int, end as int);
    if prefix.len() > end - start {
        return false;
    }
    let mut i: usize = 0;
    while i < prefix.len()
        invariant
            start <= end <= chars.len(),
            prefix.len() <= end - start,
            part == chars@.subrange(start as int, end as int),
            0 <= i <= prefix.len(),
            forall|k: int| 0 <= k < i ==> prefix@[k] == #[trigger] part[k],
        decreases prefix.len() - i,
    {
        if prefix[i] != chars[start + i] {
            return false;
        }
        i += 1;
    }
    true
}

/// Tests whether two vectors hold the same characters.
pub fn chars_equal(a: &Vec<char>, b: &Vec<char>) -> (same: bool)
    ensures
        same == (a@ == b@),
{
    if a.len() != b.len() {
        return false;
    }
    let same: bool = starts_with_at(a, 0, a.len(), b);
    assert(b@.is_prefix_of(a@) <==> a@ =~= b@);
    same
}

/// Tests whether `needle` occurs in `haystack` as a contiguous run.
pub fn contains_chars(haystack: &Vec<char>, needle: &Vec<char>) -> (found: bool)
    ensures
        found == contains_run(haystack@, needle@),
{
    if needle.len() > haystack.len() {
        return false;
    }
    let last: usize = haystack.len() - needle.len();
    let mut i: usize = 0;
    while i <= last
        invariant
            needle.len() <= haystack.len(),
            last == haystack.len() - needle.len(),
            0 <= i <= last + 1,
            forall|j: int|
                0 <= j < i ==> #[trigger] haystack@.subrange(j, j + needle@.len()) != needle@,
        decreases last + 1 - i,
    {
        let hit: bool = starts_with_at(haystack, i, haystack.len(), needle);
        if hit {
            assert(haystack@.subrange(i as int, haystack@.len() as int).subrange(
                0,
                needle@.len() as int,
            ) =~= haystack@.subrange(i as int, i + needle@.len()));
            return true;
        }
        i += 1;
    }
    false
}

/// Tests whether the string `needle` occurs in the string `haystack`.
pub fn str_contains(haystack: &str, needle: &str) -> (found: bool)
    ensures
        found == contains_run(haystack@, needle@),
{
    let h: Vec<char> = to_chars(haystack);
    let n: Vec<char> = to_chars(needle);
    contains_chars(&h, &n)
}

/// Tests whether the string `s` begins with the string `prefix`.
pub fn str_starts_with(s: &str, prefix: &str) -> (b: bool)
    ensures
        b == prefix@.is_prefix_of(s@),
{
    let chars: Vec<char> = to_chars(s);
    let p: Vec<char> = to_chars(prefix);
    starts_with_at(&chars, 0, chars.len(), &p)
}

} // verus!
