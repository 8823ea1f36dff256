//! Verified text-scanning primitives shared by the small parsers in this
//! crate: digit runs, bounded decimal values, and substring search.

use vstd::prelude::*;

verus! {

/// A decimal digit.
pub open spec fn is_digit_char(c: char) -> bool {
    48 <= c as u32 <= 57
}

/// The value of one decimal digit.
pub open spec fn digit_val(c: char) -> int {
    c as u32 - 48
}

/// The value of a run of decimal digits (empty runs count zero).
pub open spec fn digits_val(s: Seq<char>) -> int
    decreases s.len(),
{
    if s.len() == 0 {
        0
    } else {
        digits_val(s.drop_last()) * 10 + digit_val(s.last())
    }
}

/// Where the digit run starting at `i` ends.
pub open spec fn span_digits(s: Seq<char>, i: int) -> int
    decreases s.len() - i,
{
    if i < 0 || i >= s.len() || !is_digit_char(s[i]) {
        i
    } else {
        span_digits(s, i + 1)
    }
}

/// A digit run's value is never negative.
pub proof fn lemma_digits_val_nonneg(s: Seq<char>)
    requires
        forall|i: int| 0 <= i < s.len() ==> is_digit_char(#[trigger] s[i]),
    ensures
        digits_val(s) >= 0,
    decreases s.len(),
{
    if s.len() > 0 {
        lemma_digits_val_nonneg(s.drop_last());
    }
}

/// Powers of ten.
pub open spec fn pow10(n: nat) -> int
    decreases n,
{
    if n == 0 {
        1
    } else {
        10 * pow10((n - 1) as nat)
    }
}

/// A digit run of length `n` names a value below the `n`-th power of ten.
pub proof fn lemma_digits_val_upper(s: Seq<char>)
    requires
        forall|i: int| 0 <= i < s.len() ==> is_digit_char(#[trigger] s[i]),
    ensures
        0 <= digits_val(s) < pow10(s.len()),
    decreases s.len(),
{
    if s.len() > 0 {
        lemma_digits_val_upper(s.drop_last());
    }
}

/// Extending a digit run never shrinks its value.
pub proof fn lemma_digits_val_extend_ge(s: Seq<char>, i: int, j: int, e: int)
    requires
        0 <= i <= j <= e <= s.len(),
        forall|k: int| i <= k < e ==> is_digit_char(#[trigger] s[k]),
    ensures
        digits_val(s.subrange(i, j)) <= digits_val(s.subrange(i, e)),
    decreases e - j,
{
    if j < e {
        lemma_digits_val_extend_ge(s, i, j + 1, e);
        let a = s.subrange(i, j);
        let b = s.subrange(i, j + 1);
        assert(b.drop_last() =~= a);
        assert(forall|k: int| 0 <= k < a.len() ==> is_digit_char(#[trigger] a[k]));
        lemma_digits_val_nonneg(a);
    }
}

/// Is the character at `j` a decimal digit?
pub fn is_digit_at(s: &str, j: usize) -> (r: bool)
    requires
        j < s@.len(),
    ensures
        r == is_digit_char(s@[j as int]),
{
    let c = s.get_char(j);
    48 <= c as u32 && c as u32 <= 57
}

/// Finds the end of the digit run starting at `i`.
pub fn digit_span_end(s: &str, i: usize) -> (r: usize)
    requires
        i <= s@.len(),
    ensures
        r as int == span_digits(s@, i as int),
        i <= r <= s@.len(),
        forall|k: int| i <= k < r ==> is_digit_char(#[trigger] s@[k]),
        r < s@.len() ==> !is_digit_char(s@[r as int]),
    decreases s@.len() - i,
{
    let n = s.unicode_len();
    let mut j = i;
    while j < n && is_digit_at(s, j)
        invariant
            i <= j <= n,
            n == s@.len(),
            span_digits(s@, i as int) == span_digits(s@, j as int),
            forall|k: int| i <= k < j ==> is_digit_char(#[trigger] s@[k]),
        decreases n - j,
    {
        j = j + 1;
    }
    j
}

/// The value of the digit run `s[i..e]`, if it is non-empty and fits a
/// `u32`.
pub fn parse_u32_range(s: &str, i: usize, e: usize) -> (r: Option<u32>)
    requires
        i <= e <= s@.len(),
        forall|k: int| i <= k < e ==> is_digit_char(#[trigger] s@[k]),
    ensures
        r is Some <==> (i < e && digits_val(s@.subrange(i as int, e as int)) <= u32::MAX),
        r is Some ==> r->0 as int == digits_val(s@.subrange(i as int, e as int)),
{
    if i >= e {
        return None;
    }
    let mut val: u64 = 0;
    let mut j = i;
    while j < e
        invariant
            i <= j <= e <= s@.len(),
            forall|k: int| i <= k < e ==> is_digit_char(#[trigger] s@[k]),
            val as int == digits_val(s@.subrange(i as int, j as int)),
            val <= u32::MAX,
        decreases e - j,
    {
        let c = s.get_char(j);
        let d = (c as u32) - 48;
        proof {
            let pre = s@.subrange(i as int, j as int);
            let cur = s@.subrange(i as int, j + 1 as int);
            assert(cur.drop_last() =~= pre);
        }
        let next: u64 = val * 10 + (d as u64);
        if next > (u32::MAX as u64) {
            proof {
                lemma_digits_val_extend_ge(s@, i as int, j + 1 as int, e as int);
            }
            return None;
        }
        val = next;
        j = j + 1;
    }
    proof {
        assert(s@.subrange(i as int, e as int) =~= s@.subrange(i as int, j as int));
    }
    Some(val as u32)
}

/// ASCII whitespace.
pub open spec fn ws_char(c: char) -> bool {
    c == ' ' || c == '\t' || c == '\n' || c == '\r'
}

/// The first position in `[i, j)` that is not whitespace (or `j`).
pub open spec fn skip_ws_upto(s: Seq<char>, i: int, j: int) -> int
    decreases j - i,
{
    if i >= j || i < 0 || i >= s.len() || !ws_char(s[i]) {
        i
    } else {
        skip_ws_upto(s, i + 1, j)
    }
}

/// The end of the segment `[i, j)` with trailing whitespace dropped
/// (never below `i`).
pub open spec fn skip_ws_downto(s: Seq<char>, j: int, i: int) -> int
    decreases j,
{
    if j <= i || j - 1 < 0 || j - 1 >= s.len() || !ws_char(s[j - 1]) {
        j
    } else {
        skip_ws_downto(s, j - 1, i)
    }
}

/// The segment `[i, j)` of `s` with surrounding whitespace dropped.
pub open spec fn trim_range(s: Seq<char>, i: int, j: int) -> Seq<char> {
    let a = skip_ws_upto(s, i, j);
    let b = skip_ws_downto(s, j, a);
    s.subrange(a, b)
}

fn is_ws_at(s: &str, i: usize) -> (r: bool)
    requires
        i < s@.len(),
    ensures
        r == ws_char(s@[i as int]),
{
    let c = s.get_char(i);
    c == ' ' || c == '\t' || c == '\n' || c == '\r'
}

/// The bounds of the segment `[i, j)` with surrounding whitespace dropped.
pub fn trim_bounds(s: &str, i: usize, j: usize) -> (r: (usize, usize))
    requires
        i <= j <= s@.len(),
    ensures
        r.0 as int == skip_ws_upto(s@, i as int, j as int),
        r.1 as int == skip_ws_downto(s@, j as int, r.0 as int),
        i <= r.0 <= r.1 <= j,
{
    let mut a = i;
    while a < j && is_ws_at(s, a)
        invariant
            i <= a <= j <= s@.len(),
            skip_ws_upto(s@, i as int, j as int) == skip_ws_upto(s@, a as int, j as int),
        decreases j - a,
    {
        a = a + 1;
    }
    let mut b = j;
    while b > a && is_ws_at(s, b - 1)
        invariant
            a <= b <= j <= s@.len(),
            skip_ws_downto(s@, j as int, a as int) == skip_ws_downto(s@, b as int, a as int),
        decreases b,
    {
        b = b - 1;
    }
    (a, b)
}

/// Does `pat` occur in `s` starting at position `at`?
pub open spec fn match_at(s: Seq<char>, pat: Seq<char>, at: int) -> bool {
    &&& 0 <= at
    &&& at + pat.len() <= s.len()
    &&& s.subrange(at, at + pat.len()) == pat
}

/// Does `pat` occur anywhere in `s` at or after `from`?
pub open spec fn contains_from(s: Seq<char>, pat: Seq<char>, from: int) -> bool {
    exists|at: int| from <= at && match_at(s, pat, at)
}

/// Does `pat` stand at position `at` of `s`?
pub fn matches_at(s: &str, pat: &str, at: usize) -> (r: bool)
    requires
        at + pat@.len() <= s@.len(),
    ensures
        r == match_at(s@, pat@, at as int),
{
    let n = s.unicode_len();
    let m = pat.unicode_len();
    let mut k: usize = 0;
    while k < m
        invariant
            0 <= k <= m,
            m == pat@.len(),
            n == s@.len(),
            at + m <= n,
            forall|j: int| 0 <= j < k ==> s@[at + j] == pat@[j],
        decreases m - k,
    {
        if s.get_char(at + k) != pat.get_char(k) {
            proof {
                assert(s@.subrange(at as int, at + m) != pat@) by {
                    assert(s@.subrange(at as int, at + m)[k as int] != pat@[k as int]);
                }
            }
            return false;
        }
        k = k + 1;
    }
    proof {
        assert(s@.subrange(at as int, at + m) =~= pat@);
    }
    true
}

/// The first occurrence of `pat` in `s` at or after `from`, if any.
pub fn find_sub(s: &str, pat: &str, from: usize) -> (r: Option<usize>)
    requires
        from <= s@.len(),
    ensures
        r is Some ==> {
            &&& from <= r->0
            &&& match_at(s@, pat@, r->0 as int)
            &&& forall|at: int| from <= at < r->0 ==> !match_at(s@, pat@, at)
        },
        r is None ==> !contains_from(s@, pat@, from as int),
{
    let n = s.unicode_len();
    let m = pat.unicode_len();
    if m == 0 {
        proof {
            assert(s@.subrange(from as int, from as int) =~= pat@);
        }
        return Some(from);
    }
    if m > n {
        return None;
    }
    let last = n - m;
    if from > last {
        return None;
    }
    let mut at = from;
    while at <= last
        invariant
            from <= at <= last + 1,
            last == n - m,
            1 <= m,
            n == s@.len(),
            m == pat@.len(),
            m <= n,
            forall|a: int| from <= a < at ==> !match_at(s@, pat@, a),
        decreases last + 1 - at,
    {
        if matches_at(s, pat, at) {
            return Some(at);
        }
        at = at + 1;
    }
    None
}

/// The position of the first occurrence of `pat` at or after `from`, or
/// -1 when there is none.
pub open spec fn first_match(s: Seq<char>, pat: Seq<char>, from: int) -> int
    decreases s.len() - from,
{
    if from < 0 || from > s.len() {
        -1
    } else if match_at(s, pat, from) {
        from
    } else if from == s.len() {
        -1
    } else {
        first_match(s, pat, from + 1)
    }
}

proof fn lemma_first_match_is(s: Seq<char>, pat: Seq<char>, from: int, at: int)
    requires
        0 <= from <= at,
        match_at(s, pat, at),
        forall|a: int| from <= a < at ==> !match_at(s, pat, a),
    ensures
        first_match(s, pat, from) == at,
    decreases at - from,
{
    if from < at {
        lemma_first_match_is(s, pat, from + 1, at);
    }
}

proof fn lemma_first_match_none(s: Seq<char>, pat: Seq<char>, from: int)
    requires
        0 <= from <= s.len(),
        !contains_from(s, pat, from),
    ensures
        first_match(s, pat, from) == -1,
    decreases s.len() - from,
{
    if from < s.len() {
        lemma_first_match_none(s, pat, from + 1);
    }
}

/// Finds the first occurrence of `pat` at or after `from`, reflected into
/// [`first_match`].
pub fn find_first(s: &str, pat: &str, from: usize) -> (r: Option<usize>)
    requires
        from <= s@.len(),
    ensures
        r is Some ==> r->0 as int == first_match(s@, pat@, from as int) && match_at(
            s@,
            pat@,
            r->0 as int,
        ) && from <= r->0,
        r is None ==> first_match(s@, pat@, from as int) == -1,
{
    match find_sub(s, pat, from) {
        Some(at) => {
            proof {
                lemma_first_match_is(s@, pat@, from as int, at as int);
            }
            Some(at)
        },
        None => {
            proof {
                lemma_first_match_none(s@, pat@, from as int);
            }
            None
        },
    }
}

} // verus!
