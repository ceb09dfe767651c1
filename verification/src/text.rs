//! Character-level operations on strings, stated over `Seq<char>`.

use vstd::prelude::*;

verus! {

/// Whether `c` is a whitespace character: one of the characters with the
/// Unicode property `White_Space`.
pub open spec fn is_white_space(c: char) -> bool {
    ||| '\u{9}' <= c <= '\u{d}'
    ||| c == ' '
    ||| c == '\u{85}'
    ||| c == '\u{a0}'
    ||| c == '\u{1680}'
    ||| '\u{2000}' <= c <= '\u{200a}'
    ||| c == '\u{2028}'
    ||| c == '\u{2029}'
    ||| c == '\u{202f}'
    ||| c == '\u{205f}'
    ||| c == '\u{3000}'
}

/// Calls `char::is_whitespace`, which std documents as true of exactly the
/// characters with the Unicode property `White_Space`. Claimed, and not
/// proved, is that these are the characters that [`is_white_space`] lists.
#[verifier::external_body]
fn is_whitespace(c: char) -> (b: bool)
    ensures
        b == is_white_space(c),
{
    c.is_whitespace()
}

/// The number of whitespace characters at the start of `s`.
pub open spec fn leading_white_space(s: Seq<char>) -> nat
    decreases s.len(),
{
    if s.len() > 0 && is_white_space(s[0]) {
        1 + leading_white_space(s.drop_first())
    } else {
        0
    }
}

/// The number of whitespace characters at the end of `s`.
pub open spec fn trailing_white_space(s: Seq<char>) -> nat
    decreases s.len(),
{
    if s.len() > 0 && is_white_space(s.last()) {
        1 + trailing_white_space(s.drop_last())
    } else {
        0
    }
}

/// `s` without its leading whitespace.
pub open spec fn trim_start(s: Seq<char>) -> Seq<char> {
    s.skip(leading_white_space(s) as int)
}

/// `s` without its trailing whitespace.
pub open spec fn trim_end(s: Seq<char>) -> Seq<char> {
    s.take(s.len() - trailing_white_space(s))
}

/// `s` without its leading and trailing whitespace.
pub open spec fn trimmed(s: Seq<char>) -> Seq<char> {
    trim_end(trim_start(s))
}

/// Whether `pattern` occurs in `s` as a run of consecutive characters.
pub open spec fn has_substring(s: Seq<char>, pattern: Seq<char>) -> bool {
    exists|i: int| occurs_at(s, pattern, i)
}

/// Whether `pattern` occurs in `s` starting at index `i`.
pub open spec fn occurs_at(s: Seq<char>, pattern: Seq<char>, i: int) -> bool {
    &&& 0 <= i
    &&& i + pattern.len() <= s.len()
    &&& s.subrange(i, i + pattern.len()) == pattern
}

/// The texts of `lines`, in order.
pub open spec fn texts(lines: Seq<String>) -> Seq<Seq<char>> {
    lines.map_values(|line: String| line@)
}

/// `c` in lower case where it is an upper-case letter of ASCII, `c` itself
/// otherwise.
pub open spec fn ascii_lower(c: char) -> char {
    if 'A' <= c <= 'Z' {
        ((c as u8 + 32) as u8) as char
    } else {
        c
    }
}

/// `s` with its upper-case letters of ASCII in lower case.
pub open spec fn ascii_lowered(s: Seq<char>) -> Seq<char> {
    s.map_values(|c: char| ascii_lower(c))
}

/// Whether `a` and `b` are the same text but for the case of ASCII letters.
pub open spec fn same_ignoring_case(a: Seq<char>, b: Seq<char>) -> bool {
    ascii_lowered(a) == ascii_lowered(b)
}

/// The leading whitespace of `s` is a prefix of whitespace characters that is
/// followed, if by anything, by a character that is not whitespace.
pub proof fn lemma_leading_white_space(s: Seq<char>)
    ensures
        leading_white_space(s) <= s.len(),
        forall|i: int| 0 <= i < leading_white_space(s) ==> is_white_space(#[trigger] s[i]),
        leading_white_space(s) < s.len() ==> !is_white_space(s[leading_white_space(s) as int]),
    decreases s.len(),
{
    if s.len() > 0 && is_white_space(s[0]) {
        let rest = s.drop_first();
        lemma_leading_white_space(rest);
        assert forall|i: int| 0 <= i < leading_white_space(s) implies is_white_space(
            #[trigger] s[i],
        ) by {
            if i > 0 {
                assert(s[i] == rest[i - 1]);
            }
        }
        if leading_white_space(s) < s.len() {
            assert(s[leading_white_space(s) as int] == rest[leading_white_space(rest) as int]);
        }
    }
}

/// The trailing whitespace of `s` is a suffix of whitespace characters that is
/// preceded, if by anything, by a character that is not whitespace.
pub proof fn lemma_trailing_white_space(s: Seq<char>)
    ensures
        trailing_white_space(s) <= s.len(),
        forall|i: int|
            s.len() - trailing_white_space(s) <= i < s.len() ==> is_white_space(#[trigger] s[i]),
        trailing_white_space(s) < s.len() ==> !is_white_space(
            s[s.len() - trailing_white_space(s) - 1],
        ),
    decreases s.len(),
{
    if s.len() > 0 && is_white_space(s.last()) {
        let rest = s.drop_last();
        lemma_trailing_white_space(rest);
        assert forall|i: int|
            s.len() - trailing_white_space(s) <= i < s.len() implies is_white_space(
            #[trigger] s[i],
        ) by {
            if i < s.len() - 1 {
                assert(s[i] == rest[i]);
            }
        }
        if trailing_white_space(s) < s.len() {
            assert(s[s.len() - trailing_white_space(s) - 1] == rest[rest.len()
                - trailing_white_space(rest) - 1]);
        }
    }
}

/// A prefix of whitespace characters that ends before a character that is not
/// whitespace, or at the end of `s`, is the leading whitespace of `s`.
pub proof fn lemma_leading_white_space_is(s: Seq<char>, n: int)
    requires
        0 <= n <= s.len(),
        forall|i: int| 0 <= i < n ==> is_white_space(#[trigger] s[i]),
        n < s.len() ==> !is_white_space(s[n]),
    ensures
        leading_white_space(s) == n,
    decreases s.len(),
{
    if n > 0 {
        let rest = s.drop_first();
        assert(is_white_space(s[0]));
        assert forall|i: int| 0 <= i < n - 1 implies is_white_space(#[trigger] rest[i]) by {
            assert(rest[i] == s[i + 1]);
        }
        lemma_leading_white_space_is(rest, n - 1);
    }
}

/// A suffix of whitespace characters that starts after a character that is not
/// whitespace, or at the start of `s`, is the trailing whitespace of `s`.
pub proof fn lemma_trailing_white_space_is(s: Seq<char>, n: int)
    requires
        0 <= n <= s.len(),
        forall|i: int| s.len() - n <= i < s.len() ==> is_white_space(#[trigger] s[i]),
        n < s.len() ==> !is_white_space(s[s.len() - n - 1]),
    ensures
        trailing_white_space(s) == n,
    decreases s.len(),
{
    if n > 0 {
        let rest = s.drop_last();
        assert(is_white_space(s[s.len() - 1]));
        assert forall|i: int| rest.len() - (n - 1) <= i < rest.len() implies is_white_space(
            #[trigger] rest[i],
        ) by {
            assert(rest[i] == s[i]);
        }
        lemma_trailing_white_space_is(rest, n - 1);
    }
}

/// Trimming keeps a run of consecutive characters of `s`, with no whitespace
/// at either end of it.
pub proof fn lemma_trimmed_bounds(s: Seq<char>) -> (bounds: (int, int))
    ensures
        0 <= bounds.0 <= bounds.1 <= s.len(),
        trimmed(s) == s.subrange(bounds.0, bounds.1),
        bounds.0 < bounds.1 ==> !is_white_space(s[bounds.0]) && !is_white_space(s[bounds.1 - 1]),
{
    lemma_leading_white_space(s);
    let rest = trim_start(s);
    lemma_trailing_white_space(rest);
    let start = leading_white_space(s) as int;
    let end = s.len() - trailing_white_space(rest);
    assert(trimmed(s) =~= s.subrange(start, end));
    if start < end {
        assert(rest[0] == s[start]);
        if trailing_white_space(rest) == rest.len() {
            assert(is_white_space(rest[0]));
        }
        assert(rest[rest.len() - trailing_white_space(rest) - 1] == s[end - 1]);
    }
    (start, end)
}

/// Trimming a trimmed text changes nothing.
pub proof fn lemma_trimmed_idempotent(s: Seq<char>)
    ensures
        trimmed(trimmed(s)) == trimmed(s),
{
    let (start, end) = lemma_trimmed_bounds(s);
    let t = trimmed(s);
    if t.len() > 0 {
        assert(t[0] == s[start]);
        assert(t[t.len() - 1] == s[end - 1]);
    }
    lemma_leading_white_space_is(t, 0);
    assert(trim_start(t) =~= t);
    lemma_trailing_white_space_is(t, 0);
    assert(trimmed(t) =~= t);
}

/// A character of a part of `s` is a character of `s`.
pub proof fn lemma_subrange_contains(s: Seq<char>, from: int, to: int, c: char)
    requires
        0 <= from <= to <= s.len(),
        s.subrange(from, to).contains(c),
    ensures
        s.contains(c),
{
    let part = s.subrange(from, to);
    let i = choose|i: int| 0 <= i < part.len() && part[i] == c;
    assert(s[from + i] == c);
}

/// A text that occurs in a part of `s` occurs in `s`.
pub proof fn lemma_subrange_has_substring(s: Seq<char>, from: int, to: int, pattern: Seq<char>)
    requires
        0 <= from <= to <= s.len(),
        has_substring(s.subrange(from, to), pattern),
    ensures
        has_substring(s, pattern),
{
    let part = s.subrange(from, to);
    let i = choose|i: int| occurs_at(part, pattern, i);
    assert(s.subrange(from + i, from + i + pattern.len()) =~= part.subrange(
        i,
        i + pattern.len(),
    ));
    assert(occurs_at(s, pattern, from + i));
}

/// The characters of `s`, in order.
pub fn chars_of(s: &str) -> (out: Vec<char>)
    ensures
        out@ == s@,
{
    let mut out: Vec<char> = Vec::new();
    for c in it: s.chars()
        invariant
            it.seq() == s@,
            out@.len() == it.index(),
            forall|i: int| 0 <= i < out@.len() ==> out@[i] == it.seq()[i],
    {
        out.push(c);
    }
    out
}

/// The bounds of the trimmed part of `chars`: the index of its first character
/// and the index after its last one.
pub fn trim_bounds(chars: &Vec<char>) -> (bounds: (usize, usize))
    ensures
        bounds.0 <= bounds.1 <= chars@.len(),
        chars@.subrange(bounds.0 as int, bounds.1 as int) == trimmed(chars@),
{
    let n: usize = chars.len();
    let mut start: usize = 0;
    while start < n && is_whitespace(chars[start])
        invariant
            n == chars@.len(),
            start <= n,
            forall|i: int| 0 <= i < start ==> is_white_space(#[trigger] chars@[i]),
        decreases n - start,
    {
        start += 1;
    }
    let mut end: usize = n;
    while end > start && is_whitespace(chars[end - 1])
        invariant
            n == chars@.len(),
            start <= end <= n,
            forall|i: int| end <= i < n ==> is_white_space(#[trigger] chars@[i]),
        decreases end - start,
    {
        end -= 1;
    }
    proof {
        let s = chars@;
        lemma_leading_white_space_is(s, start as int);
        let rest = trim_start(s);
        assert forall|i: int| rest.len() - (n - end) <= i < rest.len() implies is_white_space(
            #[trigger] rest[i],
        ) by {
            assert(rest[i] == s[i + start]);
        }
        if n - end < rest.len() {
            assert(rest[rest.len() - (n - end) - 1] == s[end - 1]);
        }
        lemma_trailing_white_space_is(rest, n - end);
        assert(s.subrange(start as int, end as int) =~= trimmed(s));
    }
    (start, end)
}

/// Whether `c` occurs among `chars`.
pub fn contains_char(chars: &Vec<char>, c: char) -> (found: bool)
    ensures
        found == chars@.contains(c),
{
    let mut i: usize = 0;
    while i < chars.len()
        invariant
            i <= chars@.len(),
            forall|j: int| 0 <= j < i ==> chars@[j] != c,
        decreases chars@.len() - i,
    {
        if chars[i] == c {
            return true;
        }
        i += 1;
    }
    false
}

/// Whether `pattern` occurs in `chars` starting at index `start`.
pub fn matches_at(chars: &Vec<char>, pattern: &Vec<char>, start: usize) -> (found: bool)
    requires
        start + pattern@.len() <= chars@.len(),
    ensures
        found == occurs_at(chars@, pattern@, start as int),
{
    let n: usize = chars.len();
    let mut k: usize = 0;
    while k < pattern.len()
        invariant
            k <= pattern@.len(),
            start + pattern@.len() <= chars@.len() == n,
            forall|j: int| 0 <= j < k ==> chars@[start + j] == pattern@[j],
        decreases pattern@.len() - k,
    {
        if chars[start + k] != pattern[k] {
            proof {
                let window = chars@.subrange(start as int, start + pattern@.len());
                assert(window[k as int] == chars@[start + k]);
            }
            return false;
        }
        k += 1;
    }
    assert(chars@.subrange(start as int, start + pattern@.len()) =~= pattern@);
    true
}

/// Whether `pattern` occurs in `chars` as a run of consecutive characters.
pub fn contains_substring(chars: &Vec<char>, pattern: &Vec<char>) -> (found: bool)
    ensures
        found == has_substring(chars@, pattern@),
{
    if pattern.len() > chars.len() {
        return false;
    }
    let last: usize = chars.len() - pattern.len();
    let mut i: usize = 0;
    loop
        invariant
            last == chars@.len() - pattern@.len(),
            i <= last,
            forall|j: int| 0 <= j < i ==> !occurs_at(chars@, pattern@, j),
        decreases last - i,
    {
        if matches_at(chars, pattern, i) {
            return true;
        }
        if i == last {
            return false;
        }
        i += 1;
    }
}

/// `c` in lower case where it is an upper-case letter of ASCII.
pub fn to_ascii_lower(c: char) -> (lower: char)
    ensures
        lower == ascii_lower(c),
{
    if 'A' <= c && c <= 'Z' {
        ((c as u8) + 32) as char
    } else {
        c
    }
}

/// Whether `a` and `b` are the same text but for the case of ASCII letters.
pub fn equals_ignoring_case(a: &Vec<char>, b: &Vec<char>) -> (same: bool)
    ensures
        same == same_ignoring_case(a@, b@),
{
    if a.len() != b.len() {
        assert(ascii_lowered(a@).len() != ascii_lowered(b@).len());
        return false;
    }
    let mut i: usize = 0;
    while i < a.len()
        invariant
            a@.len() == b@.len(),
            i <= a@.len(),
            forall|j: int| 0 <= j < i ==> ascii_lower(a@[j]) == ascii_lower(b@[j]),
        decreases a@.len() - i,
    {
        if to_ascii_lower(a[i]) != to_ascii_lower(b[i]) {
            assert(ascii_lowered(a@)[i as int] != ascii_lowered(b@)[i as int]);
            return false;
        }
        i += 1;
    }
    assert(ascii_lowered(a@) =~= ascii_lowered(b@));
    true
}

} // verus!
