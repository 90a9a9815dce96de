//! Text scanning primitives for the tolerant message codec: substring
//! search with a first-occurrence guarantee, prefix tests, and character
//! classes, all specified over `Seq<char>` views.

use vstd::prelude::*;

verus! {

/// The pattern `p` occurs in `s` at position `i`.
pub open spec fn match_at(s: Seq<char>, p: Seq<char>, i: int) -> bool {
    0 <= i && i + p.len() <= s.len() && s.subrange(i, i + p.len() as int) == p
}

/// `i` is the leftmost position at which `p` occurs in `s`.
pub open spec fn first_match_at(s: Seq<char>, p: Seq<char>, i: int) -> bool {
    &&& match_at(s, p, i)
    &&& forall|j: int| 0 <= j < i ==> !match_at(s, p, j)
}

/// Some occurrence of `p` exists in `s`.
pub open spec fn spec_contains(s: Seq<char>, p: Seq<char>) -> bool {
    exists|i: int| match_at(s, p, i)
}

/// Position of the leftmost occurrence of `p` in `s`, or `None` when `p`
/// does not occur. Defined by a left-to-right scan.
pub open spec fn spec_find(s: Seq<char>, p: Seq<char>) -> Option<int>
    decreases s.len(),
{
    if p.len() > s.len() {
        None
    } else if s.subrange(0, p.len() as int) == p {
        Some(0)
    } else if s.len() == 0 {
        None
    } else {
        match spec_find(s.subrange(1, s.len() as int), p) {
            Some(i) => Some(i + 1),
            None => None,
        }
    }
}

/// `spec_find` returns exactly the leftmost occurrence: `Some(i)` is a first
/// match, and `None` means no position matches.
pub proof fn lemma_spec_find_first(s: Seq<char>, p: Seq<char>)
    ensures
        match spec_find(s, p) {
            Some(i) => first_match_at(s, p, i),
            None => forall|j: int| !match_at(s, p, j),
        },
    decreases s.len(),
{
    if p.len() > s.len() {
        assert(forall|j: int| !match_at(s, p, j));
    } else if s.subrange(0, p.len() as int) == p {
        assert(match_at(s, p, 0));
    } else {
        assert(s.len() > 0) by {
            if s.len() == 0 {
                assert(s.subrange(0, p.len() as int) =~= p);
            }
        }
        let t = s.subrange(1, s.len() as int);
        lemma_spec_find_first(t, p);
        assert forall|j: int| 0 <= j implies (match_at(s, p, j + 1) <==> match_at(
            t,
            p,
            j,
        )) by {
            if j + p.len() <= t.len() {
                assert(t.subrange(j, j + p.len() as int) =~= s.subrange(
                    j + 1,
                    j + 1 + p.len() as int,
                ));
            }
        }
        match spec_find(t, p) {
            Some(i) => {
                assert(match_at(s, p, i + 1));
                assert forall|j: int| 0 <= j < i + 1 implies !match_at(s, p, j) by {
                    if j > 0 {
                        assert(!match_at(t, p, j - 1));
                    }
                }
            },
            None => {
                assert forall|j: int| !match_at(s, p, j) by {
                    if j > 0 {
                        assert(!match_at(t, p, j - 1));
                    }
                }
            },
        }
    }
}

/// Leftmost occurrences are unique.
pub proof fn lemma_first_match_unique(s: Seq<char>, p: Seq<char>, i: int, j: int)
    requires
        first_match_at(s, p, i),
        first_match_at(s, p, j),
    ensures
        i == j,
{
}

/// A position known to be a first match pins down `spec_find`.
pub proof fn lemma_find_at_first_match(s: Seq<char>, p: Seq<char>, i: int)
    requires
        first_match_at(s, p, i),
    ensures
        spec_find(s, p) == Some(i),
{
    lemma_spec_find_first(s, p);
    match spec_find(s, p) {
        Some(k) => {
            lemma_first_match_unique(s, p, i, k);
        },
        None => {
            assert(match_at(s, p, i));
        },
    }
}

/// Decides whether `p` occurs in `s` at position `i`.
fn matches_at(s: &str, p: &str, i: usize, s_len: usize, p_len: usize) -> (r: bool)
    requires
        s_len == s@.len(),
        p_len == p@.len(),
        i + p_len <= s_len,
    ensures
        r == match_at(s@, p@, i as int),
{
    let mut k: usize = 0;
    while k < p_len
        invariant
            s_len == s@.len(),
            p_len == p@.len(),
            i + p_len <= s_len,
            0 <= k <= p_len,
            forall|m: int| 0 <= m < k ==> s@[i + m] == p@[m],
        decreases p_len - k,
    {
        if s.get_char(i + k) != p.get_char(k) {
            assert(!match_at(s@, p@, i as int)) by {
                if s@.subrange(i as int, i + p@.len() as int) == p@ {
                    assert(s@.subrange(i as int, i + p@.len() as int)[k as int] == p@[k as int]);
                }
            }
            return false;
        }
        k += 1;
    }
    assert(s@.subrange(i as int, i + p@.len() as int) =~= p@);
    true
}

/// Returns the position of the leftmost occurrence of `p` in `s`, scanning
/// left to right, or `None` when `p` does not occur in `s`.
pub fn find_sub(s: &str, p: &str) -> (r: Option<usize>)
    ensures
        match r {
            Some(i) => spec_find(s@, p@) == Some(i as int),
            None => spec_find(s@, p@) is None,
        },
{
    let s_len = s.unicode_len();
    let p_len = p.unicode_len();
    if p_len > s_len {
        proof {
            lemma_spec_find_first(s@, p@);
            if let Some(i) = spec_find(s@, p@) {
                assert(match_at(s@, p@, i));
            }
        }
        return None;
    }
    if p_len == 0 {
        proof {
            assert(s@.subrange(0, 0) =~= p@);
            lemma_find_at_first_match(s@, p@, 0);
        }
        return Some(0);
    }
    let mut i: usize = 0;
    while i <= s_len - p_len
        invariant
            s_len == s@.len(),
            p_len == p@.len(),
            0 < p_len <= s_len,
            0 <= i <= s_len - p_len + 1,
            forall|j: int| 0 <= j < i ==> !match_at(s@, p@, j),
        decreases s_len - i,
    {
        if matches_at(s, p, i, s_len, p_len) {
            proof {
                lemma_find_at_first_match(s@, p@, i as int);
            }
            return Some(i);
        }
        i += 1;
    }
    proof {
        assert forall|j: int| !match_at(s@, p@, j) by {
            if 0 <= j && j + p@.len() <= s@.len() {
                assert(j < i);
            }
        }
        lemma_spec_find_first(s@, p@);
        if let Some(k) = spec_find(s@, p@) {
            assert(match_at(s@, p@, k));
        }
    }
    None
}

/// Decides whether `p` occurs anywhere in `s`.
pub fn contains_sub(s: &str, p: &str) -> (r: bool)
    ensures
        r == spec_contains(s@, p@),
{
    let found = find_sub(s, p);
    proof {
        lemma_spec_find_first(s@, p@);
        match spec_find(s@, p@) {
            Some(i) => {
                assert(match_at(s@, p@, i));
            },
            None => {},
        }
    }
    found.is_some()
}

/// `p` is a prefix of `s`.
pub open spec fn spec_starts_with(s: Seq<char>, p: Seq<char>) -> bool {
    p.len() <= s.len() && s.subrange(0, p.len() as int) == p
}

/// Decides whether `s` starts with `p`.
pub fn starts_with_sub(s: &str, p: &str) -> (r: bool)
    ensures
        r == spec_starts_with(s@, p@),
{
    let s_len = s.unicode_len();
    let p_len = p.unicode_len();
    if p_len > s_len {
        return false;
    }
    matches_at(s, p, 0, s_len, p_len)
}

/// Decides whether the views of two strings are equal.
pub fn str_eq(a: &str, b: &str) -> (r: bool)
    ensures
        r == (a@ == b@),
{
    let a_len = a.unicode_len();
    let b_len = b.unicode_len();
    if a_len != b_len {
        return false;
    }
    let r = matches_at(a, b, 0, a_len, b_len);
    proof {
        if match_at(a@, b@, 0) {
            assert(a@.subrange(0, b@.len() as int) =~= a@);
        } else {
            if a@ == b@ {
                assert(a@.subrange(0, b@.len() as int) =~= b@);
            }
        }
    }
    r
}

/// An ASCII decimal digit.
pub open spec fn is_digit(c: char) -> bool {
    c == '0' || c == '1' || c == '2' || c == '3' || c == '4' || c == '5' || c == '6' || c == '7'
        || c == '8' || c == '9'
}

/// Numeric value of an ASCII decimal digit.
pub open spec fn digit_val(c: char) -> nat {
    if c == '0' {
        0
    } else if c == '1' {
        1
    } else if c == '2' {
        2
    } else if c == '3' {
        3
    } else if c == '4' {
        4
    } else if c == '5' {
        5
    } else if c == '6' {
        6
    } else if c == '7' {
        7
    } else if c == '8' {
        8
    } else {
        9
    }
}

/// Decides whether `c` is an ASCII decimal digit.
pub fn is_digit_char(c: char) -> (r: bool)
    ensures
        r == is_digit(c),
{
    c == '0' || c == '1' || c == '2' || c == '3' || c == '4' || c == '5' || c == '6' || c == '7'
        || c == '8' || c == '9'
}

/// Numeric value of an ASCII decimal digit, as a machine integer.
pub fn digit_value(c: char) -> (r: u32)
    requires
        is_digit(c),
    ensures
        r == digit_val(c),
{
    if c == '0' {
        0
    } else if c == '1' {
        1
    } else if c == '2' {
        2
    } else if c == '3' {
        3
    } else if c == '4' {
        4
    } else if c == '5' {
        5
    } else if c == '6' {
        6
    } else if c == '7' {
        7
    } else if c == '8' {
        8
    } else {
        9
    }
}

/// Position of the leftmost ASCII digit in `s`, or `None` when `s` holds no
/// digit.
pub open spec fn spec_first_digit(s: Seq<char>) -> Option<int>
    decreases s.len(),
{
    if s.len() == 0 {
        None
    } else if is_digit(s[0]) {
        Some(0)
    } else {
        match spec_first_digit(s.subrange(1, s.len() as int)) {
            Some(i) => Some(i + 1),
            None => None,
        }
    }
}

/// `spec_first_digit` returns exactly the leftmost digit position.
pub proof fn lemma_first_digit(s: Seq<char>)
    ensures
        match spec_first_digit(s) {
            Some(i) => 0 <= i < s.len() && is_digit(s[i]) && forall|j: int|
                0 <= j < i ==> !is_digit(s[j]),
            None => forall|j: int| 0 <= j < s.len() ==> !is_digit(s[j]),
        },
    decreases s.len(),
{
    if s.len() == 0 {
    } else if is_digit(s[0]) {
    } else {
        let t = s.subrange(1, s.len() as int);
        lemma_first_digit(t);
        assert forall|j: int| 1 <= j < s.len() implies s[j] == t[j - 1] by {}
        match spec_first_digit(t) {
            Some(i) => {
                assert(s[i + 1] == t[i]);
                assert forall|j: int| 0 <= j < i + 1 implies !is_digit(s[j]) by {
                    if j > 0 {
                        assert(s[j] == t[j - 1]);
                    }
                }
            },
            None => {
                assert forall|j: int| 0 <= j < s.len() implies !is_digit(s[j]) by {
                    if j > 0 {
                        assert(s[j] == t[j - 1]);
                    }
                }
            },
        }
    }
}

/// Number of leading ASCII digits of `s`.
pub open spec fn spec_digit_run(s: Seq<char>) -> int
    decreases s.len(),
{
    if s.len() == 0 || !is_digit(s[0]) {
        0
    } else {
        1 + spec_digit_run(s.subrange(1, s.len() as int))
    }
}

/// `spec_digit_run` counts exactly the leading digits of `s`.
pub proof fn lemma_digit_run(s: Seq<char>)
    ensures
        0 <= spec_digit_run(s) <= s.len(),
        forall|j: int| 0 <= j < spec_digit_run(s) ==> is_digit(s[j]),
        spec_digit_run(s) < s.len() ==> !is_digit(s[spec_digit_run(s)]),
    decreases s.len(),
{
    if s.len() == 0 || !is_digit(s[0]) {
    } else {
        let t = s.subrange(1, s.len() as int);
        lemma_digit_run(t);
        let r = spec_digit_run(s);
        assert forall|j: int| 0 <= j < r implies is_digit(s[j]) by {
            if j > 0 {
                assert(s[j] == t[j - 1]);
            }
        }
        if r < s.len() {
            assert(s[r] == t[r - 1]);
        }
    }
}

/// Value of a sequence of ASCII digits read as a decimal number.
pub open spec fn spec_digits_val(s: Seq<char>) -> nat
    decreases s.len(),
{
    if s.len() == 0 {
        0
    } else {
        spec_digits_val(s.drop_last()) * 10 + digit_val(s.last())
    }
}

/// A decimal value does not shrink when more digits are appended on the
/// right.
pub proof fn lemma_digits_val_monotone(s: Seq<char>, n: int)
    requires
        0 <= n <= s.len(),
    ensures
        spec_digits_val(s.subrange(0, n)) <= spec_digits_val(s),
    decreases s.len() - n,
{
    if n == s.len() {
        assert(s.subrange(0, n) =~= s);
    } else {
        lemma_digits_val_monotone(s, n + 1);
        let a = s.subrange(0, n);
        let b = s.subrange(0, n + 1);
        assert(b.drop_last() =~= a);
        assert(spec_digits_val(b) == spec_digits_val(a) * 10 + digit_val(b.last()));
    }
}

/// Position of the leftmost non-whitespace character of `s`, or `s.len()`
/// when `s` is all whitespace.
pub open spec fn spec_skip_ws(s: Seq<char>) -> int
    decreases s.len(),
{
    if s.len() == 0 || !is_ws(s[0]) {
        0
    } else {
        1 + spec_skip_ws(s.subrange(1, s.len() as int))
    }
}

/// `spec_skip_ws` skips exactly the leading whitespace of `s`.
pub proof fn lemma_skip_ws(s: Seq<char>)
    ensures
        0 <= spec_skip_ws(s) <= s.len(),
        forall|j: int| 0 <= j < spec_skip_ws(s) ==> is_ws(s[j]),
        spec_skip_ws(s) < s.len() ==> !is_ws(s[spec_skip_ws(s)]),
    decreases s.len(),
{
    if s.len() == 0 || !is_ws(s[0]) {
    } else {
        let t = s.subrange(1, s.len() as int);
        lemma_skip_ws(t);
        let r = spec_skip_ws(s);
        assert forall|j: int| 0 <= j < r implies is_ws(s[j]) by {
            if j > 0 {
                assert(s[j] == t[j - 1]);
            }
        }
        if r < s.len() {
            assert(s[r] == t[r - 1]);
        }
    }
}

/// The whitespace characters the codec's boolean scan skips before a
/// literal: the Unicode White_Space set, the same characters a
/// whitespace-trimming scan of the payload would drop.
pub open spec fn is_ws(c: char) -> bool {
    ||| c == '\t'
    ||| c == '\n'
    ||| c == '\u{000B}'
    ||| c == '\u{000C}'
    ||| c == '\r'
    ||| c == ' '
    ||| c == '\u{0085}'
    ||| c == '\u{00A0}'
    ||| c == '\u{1680}'
    ||| c == '\u{2000}'
    ||| c == '\u{2001}'
    ||| c == '\u{2002}'
    ||| c == '\u{2003}'
    ||| c == '\u{2004}'
    ||| c == '\u{2005}'
    ||| c == '\u{2006}'
    ||| c == '\u{2007}'
    ||| c == '\u{2008}'
    ||| c == '\u{2009}'
    ||| c == '\u{200A}'
    ||| c == '\u{2028}'
    ||| c == '\u{2029}'
    ||| c == '\u{202F}'
    ||| c == '\u{205F}'
    ||| c == '\u{3000}'
}

/// Decides whether `c` is codec whitespace.
pub fn is_ws_char(c: char) -> (r: bool)
    ensures
        r == is_ws(c),
{
    c == '\t' || c == '\n' || c == '\u{000B}' || c == '\u{000C}' || c == '\r' || c == ' ' || c
        == '\u{0085}' || c == '\u{00A0}' || c == '\u{1680}' || c == '\u{2000}' || c == '\u{2001}'
        || c == '\u{2002}' || c == '\u{2003}' || c == '\u{2004}' || c == '\u{2005}' || c
        == '\u{2006}' || c == '\u{2007}' || c == '\u{2008}' || c == '\u{2009}' || c == '\u{200A}'
        || c == '\u{2028}' || c == '\u{2029}' || c == '\u{202F}' || c == '\u{205F}' || c
        == '\u{3000}'
}

} // verus!
