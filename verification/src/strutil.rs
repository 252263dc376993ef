//! Verified string helpers: substring tests over `&str`, stripping a
//! leading dot from a domain, and ASCII case folding at the spec level.

use vstd::prelude::*;
use vstd::string::StrSliceExecFns;

verus! {

/// The needle `n` occurs in `h` starting at character position `i`.
pub open spec fn matches_at(h: Seq<char>, n: Seq<char>, i: int) -> bool {
    0 <= i && i + n.len() <= h.len() && h.subrange(i, i + n.len() as int) == n
}

/// `h` begins with `n`.
pub open spec fn spec_starts_with(h: Seq<char>, n: Seq<char>) -> bool {
    matches_at(h, n, 0)
}

/// `n` occurs somewhere in `h`.
pub open spec fn spec_contains(h: Seq<char>, n: Seq<char>) -> bool {
    exists|i: int| #[trigger] matches_at(h, n, i)
}

/// `d` with at most one leading `.` removed.
pub open spec fn spec_strip_dot(d: Seq<char>) -> Seq<char> {
    if d.len() > 0 && d[0] == '.' {
        d.subrange(1, d.len() as int)
    } else {
        d
    }
}

/// ASCII case folding of one character: `A`..`Z` map to `a`..`z`,
/// every other character is left alone.
pub open spec fn to_lower_char(c: char) -> char {
    if 'A' <= c && c <= 'Z' {
        ((c as u8) + 32) as char
    } else {
        c
    }
}

/// The inverse direction: `a`..`z` map to `A`..`Z`.
pub open spec fn to_upper_char(c: char) -> char {
    if 'a' <= c && c <= 'z' {
        ((c as u8) - 32) as char
    } else {
        c
    }
}

/// Character-wise ASCII lower-casing of a string.
pub open spec fn ascii_lower(s: Seq<char>) -> Seq<char> {
    s.map_values(|c: char| to_lower_char(c))
}

/// Character-wise ASCII upper-casing of a string.
pub open spec fn ascii_upper(s: Seq<char>) -> Seq<char> {
    s.map_values(|c: char| to_upper_char(c))
}

/// Upper-casing a string first makes no difference to its lower-cased form.
pub proof fn lemma_lower_of_upper(s: Seq<char>)
    ensures
        ascii_lower(ascii_upper(s)) == ascii_lower(s),
{
    assert forall|i: int| 0 <= i < s.len() implies ascii_lower(ascii_upper(s))[i] == ascii_lower(
        s,
    )[i] by {
        let c = s[i];
        assert(to_lower_char(to_upper_char(c)) == to_lower_char(c));
    }
    assert(ascii_lower(ascii_upper(s)) =~= ascii_lower(s));
}

/// Does `n` occur in `h` at character offset `off`?
pub(crate) fn chars_match_at(h: &str, n: &str, off: usize) -> (r: bool)
    requires
        off + n@.len() <= h@.len(),
        h@.len() <= usize::MAX,
    ensures
        r == matches_at(h@, n@, off as int),
{
    let nl = n.unicode_len();
    let mut i: usize = 0;
    while i < nl
        invariant
            off + n@.len() <= h@.len(),
            h@.len() <= usize::MAX,
            nl == n@.len(),
            i <= nl,
            forall|j: int| 0 <= j < i ==> h@[off + j] == #[trigger] n@[j],
        decreases nl - i,
    {
        if h.get_char(off + i) != n.get_char(i) {
            proof {
                let sub = h@.subrange(off as int, off + n@.len());
                assert(sub[i as int] == h@[off + i]);
                assert(sub[i as int] != n@[i as int]);
            }
            return false;
        }
        i += 1;
    }
    proof {
        assert(h@.subrange(off as int, off + n@.len()) =~= n@);
    }
    true
}

/// Character-wise equality of two strings.
pub fn str_eq(a: &str, b: &str) -> (r: bool)
    ensures
        r == (a@ == b@),
{
    let al = a.unicode_len();
    let bl = b.unicode_len();
    if al != bl {
        return false;
    }
    let r = chars_match_at(a, b, 0);
    proof {
        assert(a@.subrange(0, a@.len() as int) =~= a@);
    }
    r
}

/// Does `h` begin with `n`?
pub fn str_starts_with(h: &str, n: &str) -> (r: bool)
    ensures
        r == spec_starts_with(h@, n@),
{
    let hl = h.unicode_len();
    let nl = n.unicode_len();
    if nl > hl {
        return false;
    }
    chars_match_at(h, n, 0)
}

/// Does `n` occur anywhere in `h`?
pub fn str_contains(h: &str, n: &str) -> (r: bool)
    ensures
        r == spec_contains(h@, n@),
{
    let hl = h.unicode_len();
    let nl = n.unicode_len();
    if nl > hl {
        return false;
    }
    if nl == 0 {
        proof {
            assert(h@.subrange(0, 0) =~= n@);
            assert(matches_at(h@, n@, 0));
        }
        return true;
    }
    let mut i: usize = 0;
    while i <= hl - nl
        invariant
            hl == h@.len(),
            nl == n@.len(),
            1 <= nl <= hl,
            i <= hl - nl + 1,
            forall|j: int| 0 <= j < i ==> !(#[trigger] matches_at(h@, n@, j)),
        decreases hl - nl + 1 - i,
    {
        if chars_match_at(h, n, i) {
            return true;
        }
        i += 1;
    }
    false
}

/// `d` with at most one leading `.` removed.
pub fn strip_leading_dot(d: &str) -> (r: &str)
    ensures
        r@ == spec_strip_dot(d@),
{
    let l = d.unicode_len();
    if l > 0 && d.get_char(0) == '.' {
        d.substring_char(1, l)
    } else {
        d
    }
}

} // verus!
