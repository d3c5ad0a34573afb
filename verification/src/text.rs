//! Text helpers that the primitives share: whitespace, trimming, suffixes
//! and what it means for one text to occur in another.

use vstd::prelude::*;
use vstd::std_specs::iter::IteratorSpec;

verus! {

/// Whether `c` has the Unicode property White_Space.
pub open spec fn is_whitespace(c: char) -> bool {
    let n = c as u32;
    ||| 0x09 <= n <= 0x0D
    ||| n == 0x20
    ||| n == 0x85
    ||| n == 0xA0
    ||| n == 0x1680
    ||| 0x2000 <= n <= 0x200A
    ||| n == 0x2028
    ||| n == 0x2029
    ||| n == 0x202F
    ||| n == 0x205F
    ||| n == 0x3000
}

/// How many characters at the start of `s` are whitespace.
pub open spec fn leading_whitespace(s: Seq<char>) -> nat
    decreases s.len(),
{
    if s.len() > 0 && is_whitespace(s.first()) {
        1 + leading_whitespace(s.drop_first())
    } else {
        0
    }
}

/// How many characters at the end of `s` are whitespace.
pub open spec fn trailing_whitespace(s: Seq<char>) -> nat
    decreases s.len(),
{
    if s.len() > 0 && is_whitespace(s.last()) {
        1 + trailing_whitespace(s.drop_last())
    } else {
        0
    }
}

/// `s` without the whitespace at its start and at its end.
pub open spec fn trimmed(s: Seq<char>) -> Seq<char> {
    if leading_whitespace(s) == s.len() {
        Seq::empty()
    } else {
        s.subrange(leading_whitespace(s) as int, s.len() - trailing_whitespace(s))
    }
}

/// `needle` occurs in `hay` as a run of neighbouring characters.
pub open spec fn occurs_in(needle: Seq<char>, hay: Seq<char>) -> bool {
    exists|i: int|
        0 <= i && i + needle.len() <= hay.len() && #[trigger] hay.subrange(
            i,
            i + needle.len(),
        ) == needle
}

pub fn is_whitespace_char(c: char) -> (b: bool)
    ensures
        b == is_whitespace(c),
{
    let n: u32 = c as u32;
    (0x09 <= n && n <= 0x0D) || n == 0x20 || n == 0x85 || n == 0xA0 || n == 0x1680 || (0x2000 <= n
        && n <= 0x200A) || n == 0x2028 || n == 0x2029 || n == 0x202F || n == 0x205F || n == 0x3000
}

/// The first `a` characters of `s` are whitespace and the next one, if
/// there is one, is not: then `a` is the leading whitespace of `s`.
pub proof fn lemma_leading_whitespace(s: Seq<char>, a: int)
    requires
        0 <= a <= s.len(),
        forall|i: int| 0 <= i < a ==> is_whitespace(#[trigger] s[i]),
        a < s.len() ==> !is_whitespace(s[a]),
    ensures
        leading_whitespace(s) == a,
    decreases a,
{
    if a > 0 {
        lemma_leading_whitespace(s.drop_first(), a - 1);
    }
}

/// The characters of `s` from index `b` on are whitespace and the one
/// before, if there is one, is not: then `s.len() - b` is the trailing
/// whitespace of `s`.
pub proof fn lemma_trailing_whitespace(s: Seq<char>, b: int)
    requires
        0 <= b <= s.len(),
        forall|i: int| b <= i < s.len() ==> is_whitespace(#[trigger] s[i]),
        b > 0 ==> !is_whitespace(s[b - 1]),
    ensures
        trailing_whitespace(s) == s.len() - b,
    decreases s.len() - b,
{
    if b < s.len() {
        lemma_trailing_whitespace(s.drop_last(), b);
    }
}

/// The leading whitespace of `s` is whitespace, lies within `s`, and is
/// followed by a character that is none, if by any.
pub proof fn lemma_leading_whitespace_ends(s: Seq<char>)
    ensures
        leading_whitespace(s) <= s.len(),
        forall|i: int| 0 <= i < leading_whitespace(s) ==> is_whitespace(#[trigger] s[i]),
        leading_whitespace(s) < s.len() ==> !is_whitespace(s[leading_whitespace(s) as int]),
    decreases s.len(),
{
    if s.len() > 0 && is_whitespace(s.first()) {
        let rest = s.drop_first();
        lemma_leading_whitespace_ends(rest);
        assert forall|i: int| 0 <= i < leading_whitespace(s) implies is_whitespace(
            #[trigger] s[i],
        ) by {
            if i > 0 {
                assert(s[i] == rest[i - 1]);
            }
        }
    }
}

/// The trailing whitespace of `s` is whitespace, lies within `s`, and
/// follows a character that is none, if any.
pub proof fn lemma_trailing_whitespace_starts(s: Seq<char>)
    ensures
        trailing_whitespace(s) <= s.len(),
        forall|i: int|
            s.len() - trailing_whitespace(s) <= i < s.len() ==> is_whitespace(#[trigger] s[i]),
        trailing_whitespace(s) < s.len() ==> !is_whitespace(
            s[s.len() - trailing_whitespace(s) - 1],
        ),
    decreases s.len(),
{
    if s.len() > 0 && is_whitespace(s.last()) {
        let rest = s.drop_last();
        lemma_trailing_whitespace_starts(rest);
        assert forall|i: int|
            s.len() - trailing_whitespace(s) <= i < s.len() implies is_whitespace(
            #[trigger] s[i],
        ) by {
            if i < rest.len() {
                assert(s[i] == rest[i]);
            }
        }
    }
}

/// What trimming leaves is the stretch of `s` from its first character
/// that is no whitespace to its last: all that is cut off is whitespace,
/// and what is left neither starts nor ends with whitespace.
pub proof fn lemma_trimmed_is_the_bare_middle(s: Seq<char>)
    ensures
        leading_whitespace(s) == s.len() || leading_whitespace(s) + trailing_whitespace(s)
            < s.len(),
        trimmed(s).len() > 0 ==> !is_whitespace(trimmed(s).first()) && !is_whitespace(
            trimmed(s).last(),
        ),
        trimmed(s).len() == 0 ==> forall|i: int| 0 <= i < s.len() ==> is_whitespace(
            #[trigger] s[i],
        ),
        forall|i: int|
            0 <= i < s.len() && !is_whitespace(#[trigger] s[i]) ==> leading_whitespace(s) <= i
                < s.len() - trailing_whitespace(s),
{
    lemma_leading_whitespace_ends(s);
    lemma_trailing_whitespace_starts(s);
}

/// `s` without the whitespace at its start and at its end, as std's `trim`
/// gives it, in a string of its own.
pub fn trim(s: &str) -> (res: String)
    ensures
        res@ == trimmed(s@),
        res@.len() > 0 ==> !is_whitespace(res@.first()) && !is_whitespace(res@.last()),
{
    proof {
        lemma_trimmed_is_the_bare_middle(s@);
    }
    let n = s.unicode_len();
    let mut it = s.chars();
    let mut i: usize = 0;
    let mut start: usize = 0;
    let mut end: usize = 0;
    let mut found = false;
    while i < n
        invariant
            n == s@.len(),
            i <= n,
            it.remaining() == s@.subrange(i as int, n as int),
            forall|k: int| 0 <= k < (if found { start } else { i }) ==> is_whitespace(#[trigger] s@[k]),
            found ==> start < end <= i && !is_whitespace(s@[start as int]) && !is_whitespace(
                s@[end - 1],
            ),
            found ==> forall|k: int| end <= k < i ==> is_whitespace(#[trigger] s@[k]),
        decreases n - i,
    {
        let next = it.next();
        if let Some(c) = next {
            if !is_whitespace_char(c) {
                if !found {
                    start = i;
                    found = true;
                }
                end = i + 1;
            }
        }
        i = i + 1;
    }
    if found {
        proof {
            lemma_leading_whitespace(s@, start as int);
            lemma_trailing_whitespace(s@, end as int);
        }
        String::from_str(s.substring_char(start, end))
    } else {
        proof {
            lemma_leading_whitespace(s@, n as int);
        }
        String::new()
    }
}

/// `before`, `middle` and `after` in one string.
pub fn join(before: &str, middle: &str, after: &str) -> (text: String)
    ensures
        text@ == before@ + middle@ + after@,
{
    let mut text = String::from_str(before);
    text.append(middle);
    text.append(after);
    text
}

/// Whether `a` and `b` hold the same characters.
pub fn same_text(a: &str, b: &str) -> (same: bool)
    ensures
        same == (a@ == b@),
{
    let n = a.unicode_len();
    if b.unicode_len() != n {
        return false;
    }
    let mut left = a.chars();
    let mut right = b.chars();
    let mut i: usize = 0;
    while i < n
        invariant
            n == a@.len(),
            n == b@.len(),
            i <= n,
            left.remaining() == a@.subrange(i as int, n as int),
            right.remaining() == b@.subrange(i as int, n as int),
            forall|k: int| 0 <= k < i ==> a@[k] == b@[k],
        decreases n - i,
    {
        let x = left.next();
        let y = right.next();
        match (x, y) {
            (Some(c), Some(d)) => {
                if c != d {
                    return false;
                }
            },
            _ => {},
        }
        i = i + 1;
    }
    assert(a@ =~= b@);
    true
}

/// Whether `text` ends with the characters of `suffix`.
pub fn ends_with(text: &str, suffix: &str) -> (found: bool)
    ensures
        found == suffix@.is_suffix_of(text@),
{
    let n = text.unicode_len();
    let m = suffix.unicode_len();
    if m > n {
        return false;
    }
    same_text(text.substring_char(n - m, n), suffix)
}

/// `needle` occurs in every text built around it.
pub proof fn lemma_occurs_between(before: Seq<char>, needle: Seq<char>, after: Seq<char>)
    ensures
        occurs_in(needle, before + needle + after),
{
    let hay = before + needle + after;
    let i = before.len() as int;
    assert(hay.subrange(i, i + needle.len()) =~= needle);
}

/// What occurs in a text occurs in every text built around that text.
pub proof fn lemma_occurs_widens(
    needle: Seq<char>,
    hay: Seq<char>,
    before: Seq<char>,
    after: Seq<char>,
)
    requires
        occurs_in(needle, hay),
    ensures
        occurs_in(needle, before + hay + after),
{
    let i = choose|i: int|
        0 <= i && i + needle.len() <= hay.len() && #[trigger] hay.subrange(i, i + needle.len())
            == needle;
    let wide = before + hay + after;
    let j = before.len() + i;
    assert(wide.subrange(j, j + needle.len()) =~= hay.subrange(i, i + needle.len()));
}

} // verus!
