//! Character-level text utilities: ASCII case folding, case-insensitive
//! substring search, and whitespace trimming, each verified against a
//! direct mathematical statement over sequences of characters.

use vstd::prelude::*;

verus! {

/// Code point of `c`, with ASCII uppercase letters folded to lowercase.
pub open spec fn folded_code(c: char) -> int {
    if 'A' <= c && c <= 'Z' {
        c as int + 32
    } else {
        c as int
    }
}

/// Two characters are equal up to ASCII case.
pub open spec fn chars_eq_ci(a: char, b: char) -> bool {
    folded_code(a) == folded_code(b)
}

/// `needle` occurs in `hay` at offset `k`, up to ASCII case.
pub open spec fn matches_ci_at(hay: Seq<char>, needle: Seq<char>, k: int) -> bool {
    &&& 0 <= k
    &&& k + needle.len() <= hay.len()
    &&& forall|j: int| 0 <= j < needle.len() ==> chars_eq_ci(hay[k + j], needle[j])
}

/// `needle` occurs somewhere in `hay`, up to ASCII case.
pub open spec fn contains_ci(hay: Seq<char>, needle: Seq<char>) -> bool {
    exists|k: int| matches_ci_at(hay, needle, k)
}

/// `needle` occurs in `hay` at offset `k`, exactly.
pub open spec fn matches_at(hay: Seq<char>, needle: Seq<char>, k: int) -> bool {
    &&& 0 <= k
    &&& k + needle.len() <= hay.len()
    &&& forall|j: int| 0 <= j < needle.len() ==> hay[k + j] == needle[j]
}

/// `needle` occurs somewhere in `hay`, exactly.
pub open spec fn contains_seq(hay: Seq<char>, needle: Seq<char>) -> bool {
    exists|k: int| matches_at(hay, needle, k)
}

/// `c` counts as whitespace for title trimming.
pub open spec fn is_space(c: char) -> bool {
    c == ' ' || c == '\t' || c == '\n' || c == '\r'
}

/// `s` with leading whitespace removed.
pub open spec fn trim_front(s: Seq<char>) -> Seq<char>
    decreases s.len(),
{
    if s.len() > 0 && is_space(s[0]) {
        trim_front(s.drop_first())
    } else {
        s
    }
}

/// `s` with trailing whitespace removed.
pub open spec fn trim_back(s: Seq<char>) -> Seq<char>
    decreases s.len(),
{
    if s.len() > 0 && is_space(s.last()) {
        trim_back(s.drop_last())
    } else {
        s
    }
}

/// `s` with leading and trailing whitespace removed.
pub open spec fn trimmed(s: Seq<char>) -> Seq<char> {
    trim_back(trim_front(s))
}

/// ASCII case folding of one character, as executable code.
fn fold_code_exec(c: char) -> (r: u32)
    ensures
        r as int == folded_code(c),
{
    let v = c as u32;
    if 65 <= v && v <= 90 {
        v + 32
    } else {
        v
    }
}

/// Compare two characters up to ASCII case.
fn chars_eq_ci_exec(a: char, b: char) -> (r: bool)
    ensures
        r == chars_eq_ci(a, b),
{
    fold_code_exec(a) == fold_code_exec(b)
}

/// Check whether `needle` occurs in `hay` at offset `k`, up to ASCII case.
fn matches_ci_at_exec(hay: &str, needle: &str, k: usize) -> (r: bool)
    requires
        k + needle@.len() <= hay@.len(),
        hay@.len() <= usize::MAX,
    ensures
        r == matches_ci_at(hay@, needle@, k as int),
{
    let m = needle.unicode_len();
    let mut j: usize = 0;
    while j < m
        invariant
            j <= m,
            m == needle@.len(),
            k + m <= hay@.len(),
            hay@.len() <= usize::MAX,
            forall|j2: int| 0 <= j2 < j ==> chars_eq_ci(hay@[k + j2], needle@[j2]),
        decreases m - j,
    {
        if !chars_eq_ci_exec(hay.get_char(k + j), needle.get_char(j)) {
            return false;
        }
        j += 1;
    }
    true
}

/// Case-insensitive substring search: does `needle` occur in `hay`,
/// comparing characters up to ASCII case?
pub fn contains_ci_str(hay: &str, needle: &str) -> (r: bool)
    ensures
        r == contains_ci(hay@, needle@),
{
    let n = hay.unicode_len();
    let m = needle.unicode_len();
    if m > n {
        return false;
    }
    let mut k: usize = 0;
    while k <= n - m
        invariant
            m <= n,
            n == hay@.len(),
            m == needle@.len(),
            k <= n - m + 1,
            forall|k2: int| 0 <= k2 < k ==> !matches_ci_at(hay@, needle@, k2),
        decreases n - m + 1 - k,
    {
        if matches_ci_at_exec(hay, needle, k) {
            return true;
        }
        k += 1;
    }
    false
}

}
