//! ASCII case folding used by the case-insensitive policy parsers.

use vstd::prelude::*;
use vstd::string::StrSliceExecFns;

verus! {

/// ASCII-lowercase a single character: `'A'..='Z'` map to `'a'..='z'`,
/// every other character is unchanged.
pub open spec fn lower_char(c: char) -> char {
    if 'A' <= c && c <= 'Z' {
        ((c as int) + 32) as char
    } else {
        c
    }
}

/// Fold a character for keyword comparison: lowercase it, and when
/// `fold_hyphen` is set also turn `'-'` into `'_'`.
pub open spec fn fold_char(c: char, fold_hyphen: bool) -> char {
    if fold_hyphen && c == '-' {
        '_'
    } else {
        lower_char(c)
    }
}

/// Fold every character of a sequence.
pub open spec fn fold_seq(s: Seq<char>, fold_hyphen: bool) -> Seq<char> {
    s.map_values(|c: char| fold_char(c, fold_hyphen))
}

/// ASCII-lowercase every character of a sequence.
pub open spec fn lower(s: Seq<char>) -> Seq<char> {
    fold_seq(s, false)
}

/// Canonical form of a profile name: ASCII-lowercased, hyphens turned
/// into underscores.
pub open spec fn canon(s: Seq<char>) -> Seq<char> {
    fold_seq(s, true)
}

/// Executable folding of one character.
pub fn fold_char_exec(c: char, fold_hyphen: bool) -> (r: char)
    ensures
        r == fold_char(c, fold_hyphen),
{
    if fold_hyphen && c == '-' {
        return '_';
    }
    let code: u32 = c as u32;
    if 65 <= code && code <= 90 {
        let b: u8 = (code + 32) as u8;
        b as char
    } else {
        c
    }
}

/// Compare a string against a keyword after folding the string; the keyword
/// is expected to already be in folded form.
pub fn folded_eq(s: &str, kw: &str, fold_hyphen: bool) -> (r: bool)
    ensures
        r == (fold_seq(s@, fold_hyphen) == kw@),
{
    let n = s.unicode_len();
    let m = kw.unicode_len();
    if n != m {
        return false;
    }
    let mut i: usize = 0;
    while i < n
        invariant
            i <= n,
            n == s@.len(),
            n == kw@.len(),
            forall|j: int| 0 <= j < i ==> fold_char(#[trigger] s@[j], fold_hyphen) == kw@[j],
        decreases n - i,
    {
        let c = s.get_char(i);
        let k = kw.get_char(i);
        if fold_char_exec(c, fold_hyphen) != k {
            assert(fold_seq(s@, fold_hyphen)[i as int] != kw@[i as int]);
            return false;
        }
        i += 1;
    }
    proof {
        assert(fold_seq(s@, fold_hyphen) =~= kw@);
    }
    true
}

/// Exact, case-sensitive string comparison.
pub fn str_eq(a: &str, b: &str) -> (r: bool)
    ensures
        r == (a@ == b@),
{
    let n = a.unicode_len();
    let m = b.unicode_len();
    if n != m {
        return false;
    }
    let mut i: usize = 0;
    while i < n
        invariant
            i <= n,
            n == a@.len(),
            n == b@.len(),
            forall|j: int| 0 <= j < i ==> #[trigger] a@[j] == b@[j],
        decreases n - i,
    {
        if a.get_char(i) != b.get_char(i) {
            return false;
        }
        i += 1;
    }
    proof {
        assert(a@ =~= b@);
    }
    true
}

} // verus!
