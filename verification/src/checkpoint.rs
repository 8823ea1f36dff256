//! Manifest checkpoint writer: the pure planning half of the crash-safe
//! completion record.
//!
//! A job's manifest is a JSON object on disk, created by an external
//! collaborator. On completion the core appends two fields —
//! `completed_at` and `output_size` — without removing anything, and the
//! update must be atomic: the new text is written to a sibling temporary
//! path which is then renamed over the original, so a reader never sees a
//! half-written document. This module computes the exact new text and the
//! two paths; the caller performs the read, the temporary write, and the
//! rename, in that order.
//!
//! An absent or unparseable manifest is skipped silently (the plan is
//! `None`): the manifest is an optional side record, never the job's source
//! of truth.

use vstd::prelude::*;
use crate::strutil::{json_num_or_null, u64_to_dec};

verus! {

/// Whether the text parses as a JSON document whose root is an object; a
/// function of the text alone.
pub uninterp spec fn json_object_doc(s: Seq<char>) -> bool;

/// Relies on serde_json::from_str: deserializing into a JSON map succeeds
/// exactly when the document is a JSON object.
#[verifier::external_body]
fn json_doc_is_object(s: &str) -> (r: bool)
    ensures
        r == json_object_doc(s@),
{
    serde_json::from_str::<serde_json::Map<String, serde_json::Value>>(s).is_ok()
}

/// Relies on time's OffsetDateTime::now_utc and the RFC 3339 formatter; the
/// result depends on the clock, so nothing is promised of it.
#[verifier::external_body]
fn now_utc_rfc3339() -> String {
    time::OffsetDateTime::now_utc().format(
        &time::format_description::well_known::Rfc3339,
    ).unwrap_or_default()
}

/// JSON insignificant whitespace.
pub open spec fn is_ws(c: char) -> bool {
    c == ' ' || c == '\n' || c == '\t' || c == '\r'
}

/// Text that may stand inside a JSON string without escaping.
pub open spec fn json_safe(s: Seq<char>) -> bool {
    forall|i: int| 0 <= i < s.len() ==> s[i] != '"' && s[i] != '\\' && (#[trigger] s[i]) as u32
        >= 32
}

/// `k` is the position of the last `}` of the text.
pub open spec fn is_last_close(s: Seq<char>, k: int) -> bool {
    &&& 0 <= k < s.len()
    &&& s[k] == '}'
    &&& forall|j: int| k < j < s.len() ==> s[j] != '}'
}

/// `f` is the position of the first `{` of the text.
pub open spec fn is_first_open(s: Seq<char>, f: int) -> bool {
    &&& 0 <= f < s.len()
    &&& s[f] == '{'
    &&& forall|j: int| 0 <= j < f ==> s[j] != '{'
}

/// The root object has no members: only whitespace between its braces.
pub open spec fn body_blank(s: Seq<char>, f: int, k: int) -> bool {
    forall|i: int| f < i < k ==> is_ws(#[trigger] s[i])
}

/// The completion timestamp as a JSON value: a quoted string, or null on
/// the error path where the completion timestamp is omitted.
pub open spec fn ts_json(ts: Option<Seq<char>>) -> Seq<char> {
    match ts {
        Some(t) => seq!['"'] + t + seq!['"'],
        None => "null"@,
    }
}

/// The two completion fields, with a separating comma unless the object
/// was empty.
pub open spec fn completion_fields(ts: Option<Seq<char>>, size: Option<u64>, first: bool) -> Seq<
    char,
> {
    (if first {
        Seq::<char>::empty()
    } else {
        ","@
    }) + "\"completed_at\":"@ + ts_json(ts) + ",\"output_size\":"@ + json_num_or_null(size)
}

/// The checkpointed manifest text: the original with the completion fields
/// spliced in just before the root object's closing brace.
pub open spec fn checkpoint_text(
    s: Seq<char>,
    f: int,
    k: int,
    ts: Option<Seq<char>>,
    size: Option<u64>,
) -> Seq<char> {
    s.subrange(0, k) + completion_fields(ts, size, body_blank(s, f, k)) + s.subrange(
        k,
        s.len() as int,
    )
}

/// The text can take the splice: a first `{` strictly before a last `}`.
pub open spec fn spliceable(s: Seq<char>) -> bool {
    exists|f: int, k: int| is_first_open(s, f) && is_last_close(s, k) && f < k
}

/// Everything the caller needs for one atomic checkpoint update: write
/// `content` to `tmp_path`, then rename `tmp_path` over `final_path`.
#[derive(Debug)]
pub struct CheckpointPlan {
    pub final_path: String,
    pub tmp_path: String,
    pub content: String,
}

/// Finds the position of the last `}`.
fn find_last_close(s: &str) -> (r: Option<usize>)
    ensures
        r is Some ==> is_last_close(s@, r->0 as int),
        r is None ==> forall|j: int| 0 <= j < s@.len() ==> s@[j] != '}',
{
    let n = s.unicode_len();
    let mut i = n;
    while i > 0
        invariant
            0 <= i <= n,
            n == s@.len(),
            forall|j: int| i <= j < n ==> s@[j] != '}',
        decreases i,
    {
        i = i - 1;
        if s.get_char(i) == '}' {
            return Some(i);
        }
    }
    None
}

/// Finds the position of the first `{`.
fn find_first_open(s: &str) -> (r: Option<usize>)
    ensures
        r is Some ==> is_first_open(s@, r->0 as int),
        r is None ==> forall|j: int| 0 <= j < s@.len() ==> s@[j] != '{',
{
    let n = s.unicode_len();
    let mut i: usize = 0;
    while i < n
        invariant
            0 <= i <= n,
            n == s@.len(),
            forall|j: int| 0 <= j < i ==> s@[j] != '{',
        decreases n - i,
    {
        if s.get_char(i) == '{' {
            return Some(i);
        }
        i = i + 1;
    }
    None
}

/// Is every character strictly between `f` and `k` JSON whitespace?
fn blank_between(s: &str, f: usize, k: usize) -> (r: bool)
    requires
        f < k <= s@.len(),
    ensures
        r == body_blank(s@, f as int, k as int),
{
    let mut i = f + 1;
    while i < k
        invariant
            f < i <= k <= s@.len(),
            forall|j: int| f < j < i ==> is_ws(#[trigger] s@[j]),
        decreases k - i,
    {
        let c = s.get_char(i);
        if !(c == ' ' || c == '\n' || c == '\t' || c == '\r') {
            return false;
        }
        i = i + 1;
    }
    true
}

/// Is the text safe to embed in a JSON string without escaping?
fn str_json_safe(s: &str) -> (r: bool)
    ensures
        r == json_safe(s@),
{
    let n = s.unicode_len();
    let mut i: usize = 0;
    while i < n
        invariant
            0 <= i <= n,
            n == s@.len(),
            forall|j: int| 0 <= j < i ==> s@[j] != '"' && s@[j] != '\\' && (#[trigger] s@[j]) as u32
                >= 32,
        decreases n - i,
    {
        let c = s.get_char(i);
        if c == '"' || c == '\\' || (c as u32) < 32 {
            return false;
        }
        i = i + 1;
    }
    true
}

/// The view of an optional timestamp.
pub open spec fn ts_view(ts: Option<&str>) -> Option<Seq<char>> {
    match ts {
        Some(t) => Some(t@),
        None => None,
    }
}

/// The timestamp, if any, can stand in a JSON string as it is.
pub open spec fn ts_safe(ts: Option<&str>) -> bool {
    match ts {
        Some(t) => json_safe(t@),
        None => true,
    }
}

/// The manifest text with the completion fields appended to its root
/// object (`completed_at` is null on the error path, where the completion
/// timestamp is omitted). `None` when the text is not a JSON object (skip
/// silently) or the timestamp could not stand in a JSON string as it is.
pub fn checkpoint_content(text: &str, completed_at: Option<&str>, output_size: Option<u64>) -> (r:
    Option<String>)
    ensures
        r is Some <==> json_object_doc(text@) && spliceable(text@) && ts_safe(completed_at),
        r is Some ==> exists|f: int, k: int|
            is_first_open(text@, f) && is_last_close(text@, k) && f < k && r->0@
                == checkpoint_text(text@, f, k, ts_view(completed_at), output_size),
{
    if !json_doc_is_object(text) {
        return None;
    }
    match completed_at {
        Some(t) => {
            if !str_json_safe(t) {
                return None;
            }
        },
        None => {},
    }
    let f = match find_first_open(text) {
        Some(f) => f,
        None => {
            proof {
                assert(!spliceable(text@));
            }
            return None;
        },
    };
    let k = match find_last_close(text) {
        Some(k) => k,
        None => {
            proof {
                assert(!spliceable(text@));
            }
            return None;
        },
    };
    if k <= f {
        proof {
            assert forall|f2: int, k2: int|
                is_first_open(text@, f2) && is_last_close(text@, k2) implies !(f2 < k2) by {
                assert(f2 == f as int && k2 == k as int);
            }
            assert(!spliceable(text@));
        }
        return None;
    }
    let blank = blank_between(text, f, k);
    let mut out = text.substring_char(0, k).to_owned();
    if !blank {
        out.append(",");
    }
    out.append("\"completed_at\":");
    match completed_at {
        Some(t) => {
            out.append("\"");
            out.append(t);
            out.append("\"");
            proof {
                reveal_strlit("\"");
                assert("\""@ =~= seq!['"']);
            }
        },
        None => {
            out.append("null");
        },
    }
    out.append(",\"output_size\":");
    match output_size {
        Some(n) => {
            let d = u64_to_dec(n);
            out.append(d.as_str());
        },
        None => {
            out.append("null");
        },
    }
    let len = text.unicode_len();
    out.append(text.substring_char(k, len));
    proof {
        assert(out@ =~= checkpoint_text(
            text@,
            f as int,
            k as int,
            ts_view(completed_at),
            output_size,
        ));
    }
    Some(out)
}

/// The full checkpoint plan for a manifest at `manifest_path` whose current
/// text is `text`: the new content, and the sibling temporary path the
/// caller writes it to before renaming it over the original. The two paths
/// always differ, so the only write is to the temporary file and a crash
/// before the rename leaves the original untouched.
pub fn checkpoint_plan(
    manifest_path: &str,
    text: &str,
    completed_at: Option<&str>,
    output_size: Option<u64>,
) -> (r: Option<CheckpointPlan>)
    ensures
        r is Some <==> json_object_doc(text@) && spliceable(text@) && ts_safe(completed_at),
        r is Some ==> {
            &&& r->0.final_path@ == manifest_path@
            &&& r->0.tmp_path@ == manifest_path@ + ".tmp"@
            &&& r->0.tmp_path@ != r->0.final_path@
            &&& exists|f: int, k: int|
                is_first_open(text@, f) && is_last_close(text@, k) && f < k && r->0.content@
                    == checkpoint_text(text@, f, k, ts_view(completed_at), output_size)
        },
{
    let content = match checkpoint_content(text, completed_at, output_size) {
        Some(c) => c,
        None => {
            return None;
        },
    };
    let final_path = manifest_path.to_owned();
    let mut tmp_path = manifest_path.to_owned();
    tmp_path.append(".tmp");
    proof {
        reveal_strlit(".tmp");
        assert(tmp_path@.len() == manifest_path@.len() + 4);
    }
    Some(CheckpointPlan { final_path, tmp_path, content })
}

/// Like [`checkpoint_plan`], with the completion timestamp taken from the
/// clock now, formatted as RFC 3339. The timestamp depends on the clock, so
/// this promises only what holds of every outcome; [`checkpoint_plan`]
/// itself carries the exact contract.
pub fn checkpoint_plan_now(manifest_path: &str, text: &str, output_size: Option<u64>) -> (r:
    Option<CheckpointPlan>)
    ensures
        r is Some ==> json_object_doc(text@) && spliceable(text@),
        r is Some ==> {
            &&& r->0.final_path@ == manifest_path@
            &&& r->0.tmp_path@ == manifest_path@ + ".tmp"@
            &&& r->0.tmp_path@ != r->0.final_path@
        },
        !json_object_doc(text@) || !spliceable(text@) ==> r is None,
{
    let ts = now_utc_rfc3339();
    checkpoint_plan(manifest_path, text, Some(ts.as_str()), output_size)
}

} // verus!
