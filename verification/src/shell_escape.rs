//! POSIX shell quoting for command lines the tool assembles: a whitelist
//! fast path, and single-quote wrapping with `'"'"'` for embedded quotes.

use vstd::prelude::*;

verus! {

/// Characters that may stand unquoted in a shell word: ASCII letters,
/// digits, and `_ - . / : @ %`.
pub open spec fn shell_safe_char(c: char) -> bool {
    ||| (97 <= c as u32 && c as u32 <= 122)
    ||| (65 <= c as u32 && c as u32 <= 90)
    ||| (48 <= c as u32 && c as u32 <= 57)
    ||| c == '_'
    ||| c == '-'
    ||| c == '.'
    ||| c == '/'
    ||| c == ':'
    ||| c == '@'
    ||| c == '%'
}

/// Every character of the word is safe unquoted.
pub open spec fn all_shell_safe(s: Seq<char>) -> bool {
    forall|i: int| 0 <= i < s.len() ==> shell_safe_char(#[trigger] s[i])
}

/// How one character is written inside a single-quoted word: a quote
/// closes the word, stands double-quoted, and reopens it.
pub open spec fn esc_char(c: char) -> Seq<char> {
    if c == '\'' {
        seq!['\'', '"', '\'', '"', '\'']
    } else {
        seq![c]
    }
}

/// A whole word written inside single quotes.
pub open spec fn esc_chars(s: Seq<char>) -> Seq<char>
    decreases s.len(),
{
    if s.len() == 0 {
        Seq::empty()
    } else {
        esc_chars(s.drop_last()) + esc_char(s.last())
    }
}

/// What [`escape`] returns: the empty word quoted, a fully safe word
/// unchanged, and anything else single-quoted with embedded quotes escaped.
pub open spec fn spec_escape(s: Seq<char>) -> Seq<char> {
    if s.len() == 0 {
        "''"@
    } else if all_shell_safe(s) {
        s
    } else {
        seq!['\''] + esc_chars(s) + seq!['\'']
    }
}

/// What [`shq`] returns: the word single-quoted unconditionally.
pub open spec fn spec_shq(s: Seq<char>) -> Seq<char> {
    seq!['\''] + esc_chars(s) + seq!['\'']
}

fn is_shell_safe_at(s: &str, i: usize) -> (r: bool)
    requires
        i < s@.len(),
    ensures
        r == shell_safe_char(s@[i as int]),
{
    let c = s.get_char(i);
    let u = c as u32;
    (97 <= u && u <= 122) || (65 <= u && u <= 90) || (48 <= u && u <= 57) || c == '_' || c == '-'
        || c == '.' || c == '/' || c == ':' || c == '@' || c == '%'
}

fn all_safe(s: &str) -> (r: bool)
    ensures
        r == all_shell_safe(s@),
{
    let n = s.unicode_len();
    let mut i: usize = 0;
    while i < n
        invariant
            0 <= i <= n,
            n == s@.len(),
            forall|j: int| 0 <= j < i ==> shell_safe_char(#[trigger] s@[j]),
        decreases n - i,
    {
        if !is_shell_safe_at(s, i) {
            return false;
        }
        i = i + 1;
    }
    true
}

/// Appends the single-quoted body of `s` to `out`.
fn append_quoted_body(out: &mut String, s: &str)
    ensures
        final(out)@ == old(out)@ + esc_chars(s@),
{
    let n = s.unicode_len();
    let mut i: usize = 0;
    while i < n
        invariant
            0 <= i <= n,
            n == s@.len(),
            out@ == old(out)@ + esc_chars(s@.subrange(0, i as int)),
        decreases n - i,
    {
        proof {
            let pre = s@.subrange(0, i as int);
            let cur = s@.subrange(0, i + 1 as int);
            assert(cur.drop_last() =~= pre);
        }
        if s.get_char(i) == '\'' {
            out.append("'\"'\"'");
            proof {
                reveal_strlit("'\"'\"'");
                assert("'\"'\"'"@ =~= seq!['\'', '"', '\'', '"', '\'']);
            }
        } else {
            let piece = s.substring_char(i, i + 1);
            out.append(piece);
            proof {
                assert(piece@ =~= seq![s@[i as int]]);
            }
        }
        i = i + 1;
    }
    proof {
        assert(s@.subrange(0, n as int) =~= s@);
    }
}

/// Quotes a word for a POSIX shell: empty words become `''`, words made
/// only of safe characters pass through, and anything else is wrapped in
/// single quotes with embedded quotes escaped.
pub fn escape(s: &str) -> (r: String)
    ensures
        r@ == spec_escape(s@),
{
    if s.unicode_len() == 0 {
        return "''".to_owned();
    }
    if all_safe(s) {
        return s.to_owned();
    }
    let mut out = "'".to_owned();
    proof {
        reveal_strlit("'");
        assert("'"@ =~= seq!['\'']);
    }
    append_quoted_body(&mut out, s);
    out.append("'");
    proof {
        assert(out@ =~= spec_escape(s@));
    }
    out
}

/// Quotes a word unconditionally in single quotes.
pub fn shq(s: &str) -> (r: String)
    ensures
        r@ == spec_shq(s@),
{
    let mut out = "'".to_owned();
    proof {
        reveal_strlit("'");
        assert("'"@ =~= seq!['\'']);
    }
    append_quoted_body(&mut out, s);
    out.append("'");
    proof {
        assert(out@ =~= spec_shq(s@));
    }
    out
}

} // verus!
