//! Verified string helpers: exact and ASCII-case-insensitive comparison.
//!
//! The launcher compares program names against fixed ASCII words (shell
//! builtins, script suffixes), so case-insensitivity here means folding the
//! ASCII letters `A`..`Z` only.

use vstd::prelude::*;

verus! {

/// The code point of `c` with an ASCII capital letter folded to lower case.
pub open spec fn lower_code(c: char) -> int {
    if 65 <= c as u32 && c as u32 <= 90 {
        c as u32 + 32
    } else {
        c as u32 as int
    }
}

/// The two texts are equal up to ASCII case.
pub open spec fn str_ci_eq(s: Seq<char>, t: Seq<char>) -> bool {
    s.len() == t.len() && forall|i: int|
        0 <= i < s.len() ==> lower_code(#[trigger] s[i]) == lower_code(t[i])
}

/// The text ends with `t`, up to ASCII case.
pub open spec fn suffix_ci(s: Seq<char>, t: Seq<char>) -> bool {
    t.len() <= s.len() && str_ci_eq(s.skip(s.len() - t.len()), t)
}

/// Compares two characters up to ASCII case.
pub fn eq_ci(a: char, b: char) -> (r: bool)
    ensures
        r == (lower_code(a) == lower_code(b)),
{
    let ca: u32 = a as u32;
    let cb: u32 = b as u32;
    let la: u32 = if 65 <= ca && ca <= 90 {
        ca + 32
    } else {
        ca
    };
    let lb: u32 = if 65 <= cb && cb <= 90 {
        cb + 32
    } else {
        cb
    };
    la == lb
}

/// Compares two texts up to ASCII case.
pub fn str_eq_ci(a: &str, b: &str) -> (r: bool)
    ensures
        r == str_ci_eq(a@, b@),
{
    let n = a.unicode_len();
    let m = b.unicode_len();
    if n != m {
        return false;
    }
    let mut i: usize = 0;
    while i < n
        invariant
            i <= n,
            n == a@.len(),
            n == b@.len(),
            forall|j: int| 0 <= j < i ==> lower_code(#[trigger] a@[j]) == lower_code(b@[j]),
        decreases n - i,
    {
        if !eq_ci(a.get_char(i), b.get_char(i)) {
            return false;
        }
        i += 1;
    }
    true
}

/// Compares two texts exactly.
pub fn str_equal(a: &str, b: &str) -> (r: bool)
    ensures
        r == (a@ == b@),
{
    let n = a.unicode_len();
    let m = b.unicode_len();
    if n != m {
        return false;
    }
    let mut i: usize = 0;
    while i < n
        invariant
            i <= n,
            n == a@.len(),
            n == b@.len(),
            forall|j: int| 0 <= j < i ==> #[trigger] a@[j] == b@[j],
        decreases n - i,
    {
        if a.get_char(i) != b.get_char(i) {
            return false;
        }
        i += 1;
    }
    proof {
        assert(a@ =~= b@);
    }
    true
}

/// Tests whether `s` ends with `suffix`, up to ASCII case.
pub fn has_suffix_ci(s: &str, suffix: &str) -> (r: bool)
    ensures
        r == suffix_ci(s@, suffix@),
{
    let n = s.unicode_len();
    let m = suffix.unicode_len();
    if m > n {
        return false;
    }
    let mut j: usize = 0;
    while j < m
        invariant
            j <= m,
            m <= n,
            n == s@.len(),
            m == suffix@.len(),
            forall|k: int|
                0 <= k < j ==> lower_code(#[trigger] s@[n - m + k]) == lower_code(suffix@[k]),
        decreases m - j,
    {
        if !eq_ci(s.get_char(n - m + j), suffix.get_char(j)) {
            proof {
                let bad = j as int;
                assert(s@.skip(n - m)[bad] == s@[n - m + bad]);
            }
            return false;
        }
        j += 1;
    }
    proof {
        assert forall|k: int| 0 <= k < m implies lower_code(
            #[trigger] s@.skip(n - m)[k],
        ) == lower_code(suffix@[k]) by {
            assert(s@.skip(n - m)[k] == s@[n - m + k]);
        }
    }
    true
}

} // verus!
