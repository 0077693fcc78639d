//! Character-level scanning used by the parser, the serializer and the router:
//! finding a character, skipping whitespace, substring search and string
//! equality, each with a specification over the `Seq<char>` view.

use vstd::prelude::*;

verus! {

/// The characters with the Unicode `White_Space` property, the set that
/// `str::split_whitespace` separates tokens on.
pub open spec fn is_ws(c: char) -> bool {
    ||| c == ' '
    ||| ('\u{9}' <= c && c <= '\u{d}')
    ||| c == '\u{85}'
    ||| c == '\u{a0}'
    ||| c == '\u{1680}'
    ||| ('\u{2000}' <= c && c <= '\u{200a}')
    ||| c == '\u{2028}'
    ||| c == '\u{2029}'
    ||| c == '\u{202f}'
    ||| c == '\u{205f}'
    ||| c == '\u{3000}'
}

/// Decides [`is_ws`].
pub fn is_ws_char(c: char) -> (b: bool)
    ensures
        b == is_ws(c),
{
    c == ' ' || ('\u{9}' <= c && c <= '\u{d}') || c == '\u{85}' || c == '\u{a0}' || c
        == '\u{1680}' || ('\u{2000}' <= c && c <= '\u{200a}') || c == '\u{2028}' || c == '\u{2029}'
        || c == '\u{202f}' || c == '\u{205f}' || c == '\u{3000}'
}

/// The first position at or after `i` holding `c`, or `s.len()` if there is none.
pub open spec fn find_from(s: Seq<char>, i: int, c: char) -> int
    decreases s.len() - i,
{
    if i >= s.len() {
        s.len() as int
    } else if s[i] == c {
        i
    } else {
        find_from(s, i + 1, c)
    }
}

/// The first position at or after `i` holding a character other than `c`,
/// or `s.len()` if there is none.
pub open spec fn find_other_from(s: Seq<char>, i: int, c: char) -> int
    decreases s.len() - i,
{
    if i >= s.len() {
        s.len() as int
    } else if s[i] != c {
        i
    } else {
        find_other_from(s, i + 1, c)
    }
}

/// The first position at or after `i` holding a non-whitespace character,
/// or `s.len()` if there is none.
pub open spec fn skip_ws_from(s: Seq<char>, i: int) -> int
    decreases s.len() - i,
{
    if i >= s.len() {
        s.len() as int
    } else if is_ws(s[i]) {
        skip_ws_from(s, i + 1)
    } else {
        i
    }
}

/// The first position at or after `i` holding a whitespace character,
/// or `s.len()` if there is none.
pub open spec fn ws_from(s: Seq<char>, i: int) -> int
    decreases s.len() - i,
{
    if i >= s.len() {
        s.len() as int
    } else if is_ws(s[i]) {
        i
    } else {
        ws_from(s, i + 1)
    }
}

/// [`find_from`] stays between its starting point and the end of the sequence,
/// and lands on `c` whenever it lands before the end.
pub proof fn lemma_find_from(s: Seq<char>, i: int, c: char)
    requires
        0 <= i <= s.len(),
    ensures
        i <= find_from(s, i, c) <= s.len(),
        find_from(s, i, c) < s.len() ==> s[find_from(s, i, c)] == c,
        forall|j: int| i <= j < find_from(s, i, c) ==> s[j] != c,
    decreases s.len() - i,
{
    if i < s.len() && s[i] != c {
        lemma_find_from(s, i + 1, c);
    }
}

/// Computes [`find_from`].
pub fn find_char_from(s: &str, start: usize, c: char) -> (r: usize)
    requires
        start <= s@.len(),
    ensures
        r == find_from(s@, start as int, c),
        start <= r <= s@.len(),
{
    let n = s.unicode_len();
    let mut i: usize = start;
    while i < n
        invariant
            start <= i <= n,
            n == s@.len(),
            find_from(s@, start as int, c) == find_from(s@, i as int, c),
        decreases n - i,
    {
        if s.get_char(i) == c {
            return i;
        }
        i = i + 1;
    }
    i
}

/// Computes [`find_other_from`].
pub fn find_other_char_from(s: &str, start: usize, c: char) -> (r: usize)
    requires
        start <= s@.len(),
    ensures
        r == find_other_from(s@, start as int, c),
        start <= r <= s@.len(),
{
    let n = s.unicode_len();
    let mut i: usize = start;
    while i < n
        invariant
            start <= i <= n,
            n == s@.len(),
            find_other_from(s@, start as int, c) == find_other_from(s@, i as int, c),
        decreases n - i,
    {
        if s.get_char(i) != c {
            return i;
        }
        i = i + 1;
    }
    i
}

/// Computes [`skip_ws_from`].
pub fn skip_ws(s: &str, start: usize) -> (r: usize)
    requires
        start <= s@.len(),
    ensures
        r == skip_ws_from(s@, start as int),
        start <= r <= s@.len(),
{
    let n = s.unicode_len();
    let mut i: usize = start;
    while i < n
        invariant
            start <= i <= n,
            n == s@.len(),
            skip_ws_from(s@, start as int) == skip_ws_from(s@, i as int),
        decreases n - i,
    {
        if !is_ws_char(s.get_char(i)) {
            return i;
        }
        i = i + 1;
    }
    i
}

/// Computes [`ws_from`].
pub fn token_end(s: &str, start: usize) -> (r: usize)
    requires
        start <= s@.len(),
    ensures
        r == ws_from(s@, start as int),
        start <= r <= s@.len(),
{
    let n = s.unicode_len();
    let mut i: usize = start;
    while i < n
        invariant
            start <= i <= n,
            n == s@.len(),
            ws_from(s@, start as int) == ws_from(s@, i as int),
        decreases n - i,
    {
        if is_ws_char(s.get_char(i)) {
            return i;
        }
        i = i + 1;
    }
    i
}

/// `needle` occurs in `hay` as a contiguous run starting at `k`.
pub open spec fn occurs_at(hay: Seq<char>, needle: Seq<char>, k: int) -> bool {
    0 <= k && k + needle.len() <= hay.len() && hay.subrange(k, k + needle.len()) == needle
}

/// `needle` occurs somewhere in `hay` as a contiguous run.
pub open spec fn contains_seq(hay: Seq<char>, needle: Seq<char>) -> bool {
    exists|k: int| occurs_at(hay, needle, k)
}

/// Whether the two strings hold the same characters.
pub fn str_eq_str(a: &str, b: &str) -> (r: bool)
    ensures
        r == (a@ == b@),
{
    let na = a.unicode_len();
    let nb = b.unicode_len();
    if na != nb {
        return false;
    }
    let mut i: usize = 0;
    while i < na
        invariant
            i <= na,
            na == a@.len(),
            na == b@.len(),
            forall|j: int| 0 <= j < i ==> a@[j] == b@[j],
        decreases na - i,
    {
        if a.get_char(i) != b.get_char(i) {
            return false;
        }
        i = i + 1;
    }
    proof {
        assert(a@ =~= b@);
    }
    true
}

} // verus!
