//! Bitrate ladders: the fixed default ladder, a height-driven suggestion,
//! and a parser for ladder specifications such as
//! `426x240@400k,640x360@800k/96k:low,1280x720@2500k`.

use vstd::prelude::*;
use crate::scan::{digit_span_end, digits_val, is_digit_char, parse_u32_range, span_digits,
    trim_bounds, trim_range};
use crate::strutil::{dec_str, u64_to_dec};

verus! {

/// One rung of a bitrate ladder; bitrates are in kbit/s, and an audio
/// bitrate of 0 means audio is shared across variants.
#[derive(Debug, Clone)]
pub struct LadderItem {
    pub w: u32,
    pub h: u32,
    pub v_bitrate_k: u32,
    pub a_bitrate_k: u32,
    pub name: String,
}

/// A ladder of encoding variants.
#[derive(Debug, Clone)]
pub struct Ladder {
    pub items: Vec<LadderItem>,
}

/// A character allowed in a variant name.
pub open spec fn word_char(c: char) -> bool {
    ||| (97 <= c as u32 && c as u32 <= 122)
    ||| (65 <= c as u32 && c as u32 <= 90)
    ||| is_digit_char(c)
    ||| c == '_'
}

/// The default name of a rung of height `h`.
pub open spec fn spec_row_name(h: u32) -> Seq<char> {
    dec_str(h as nat) + "p"@
}

/// The optional `:name` tail of one ladder entry, after position `pos`;
/// without one the entry must end there and the name defaults to the
/// height.
pub open spec fn spec_parse_tail(p: Seq<char>, pos: int, w: u32, h: u32, v: u32, a: u32) -> Option<
    (u32, u32, u32, u32, Seq<char>),
> {
    if pos < p.len() && p[pos] == ':' {
        let nm = p.subrange(pos + 1, p.len() as int);
        if nm.len() >= 1 && (forall|i: int| 0 <= i < nm.len() ==> word_char(#[trigger] nm[i])) {
            Some((w, h, v, a, nm))
        } else {
            None
        }
    } else if pos == p.len() {
        Some((w, h, v, a, spec_row_name(h)))
    } else {
        None
    }
}

/// One ladder entry, written `WxH@Vk`, optionally followed by `/Ak` (audio
/// bitrate, default 128) and `:name` (default the height, as in "720p").
pub open spec fn spec_parse_item(p: Seq<char>) -> Option<(u32, u32, u32, u32, Seq<char>)> {
    let e1 = span_digits(p, 0);
    if e1 == 0 || digits_val(p.subrange(0, e1)) > u32::MAX {
        None
    } else if e1 >= p.len() || p[e1] != 'x' {
        None
    } else {
        let e2 = span_digits(p, e1 + 1);
        if e2 == e1 + 1 || digits_val(p.subrange(e1 + 1, e2)) > u32::MAX {
            None
        } else if e2 >= p.len() || p[e2] != '@' {
            None
        } else {
            let e3 = span_digits(p, e2 + 1);
            if e3 == e2 + 1 || digits_val(p.subrange(e2 + 1, e3)) > u32::MAX {
                None
            } else if e3 >= p.len() || p[e3] != 'k' {
                None
            } else {
                let w = digits_val(p.subrange(0, e1)) as u32;
                let h = digits_val(p.subrange(e1 + 1, e2)) as u32;
                let v = digits_val(p.subrange(e2 + 1, e3)) as u32;
                let pos = e3 + 1;
                if pos < p.len() && p[pos] == '/' {
                    let e4 = span_digits(p, pos + 1);
                    if e4 == pos + 1 || digits_val(p.subrange(pos + 1, e4)) > u32::MAX {
                        None
                    } else if e4 >= p.len() || p[e4] != 'k' {
                        None
                    } else {
                        spec_parse_tail(
                            p,
                            e4 + 1,
                            w,
                            h,
                            v,
                            digits_val(p.subrange(pos + 1, e4)) as u32,
                        )
                    }
                } else {
                    spec_parse_tail(p, pos, w, h, v, 128)
                }
            }
        }
    }
}

/// The first comma at or after `i`, or the end of the text.
pub open spec fn comma_pos(s: Seq<char>, i: int) -> int
    decreases s.len() - i,
{
    if i < 0 || i >= s.len() || s[i] == ',' {
        i
    } else {
        comma_pos(s, i + 1)
    }
}

proof fn lemma_comma_pos_ge(s: Seq<char>, i: int)
    ensures
        comma_pos(s, i) >= i,
    decreases s.len() - i,
{
    if !(i < 0 || i >= s.len() || s[i] == ',') {
        lemma_comma_pos_ge(s, i + 1);
    }
}

/// The comma-separated entries of a ladder specification from position
/// `i` on, each trimmed and parsed; `None` as soon as one entry is bad.
pub open spec fn spec_parse_parts(s: Seq<char>, i: int) -> Option<
    Seq<(u32, u32, u32, u32, Seq<char>)>,
>
    decreases s.len() - i,
    via spec_parse_parts_decreases
{
    let j = comma_pos(s, i);
    match spec_parse_item(trim_range(s, i, j)) {
        None => None,
        Some(it) => if j >= s.len() {
            Some(seq![it])
        } else {
            match spec_parse_parts(s, j + 1) {
                None => None,
                Some(rest) => Some(seq![it] + rest),
            }
        },
    }
}

#[via_fn]
proof fn spec_parse_parts_decreases(s: Seq<char>, i: int) {
    lemma_comma_pos_ge(s, i);
}

/// What a whole ladder specification parses to.
pub open spec fn spec_parse_ladder(s: Seq<char>) -> Option<Seq<(u32, u32, u32, u32, Seq<char>)>> {
    spec_parse_parts(s, 0)
}

/// An executable item agrees with a parsed specification tuple.
pub open spec fn item_matches(it: LadderItem, t: (u32, u32, u32, u32, Seq<char>)) -> bool {
    it.w == t.0 && it.h == t.1 && it.v_bitrate_k == t.2 && it.a_bitrate_k == t.3 && it.name@ == t.4
}

/// The default name of a rung: its height followed by "p".
fn row_name(h: u32) -> (r: String)
    ensures
        r@ == spec_row_name(h),
{
    let mut s = u64_to_dec(h as u64);
    s.append("p");
    s
}

fn word_char_at(s: &str, i: usize) -> (r: bool)
    requires
        i < s@.len(),
    ensures
        r == word_char(s@[i as int]),
{
    let c = s.get_char(i);
    let u = c as u32;
    (97 <= u && u <= 122) || (65 <= u && u <= 90) || (48 <= u && u <= 57) || c == '_'
}

fn all_word_chars(s: &str, from: usize) -> (r: bool)
    requires
        from <= s@.len(),
    ensures
        r == (forall|i: int|
            from <= i < s@.len() ==> word_char(#[trigger] s@[i])),
{
    let n = s.unicode_len();
    let mut i = from;
    while i < n
        invariant
            from <= i <= n,
            n == s@.len(),
            forall|j: int| from <= j < i ==> word_char(#[trigger] s@[j]),
        decreases n - i,
    {
        if !word_char_at(s, i) {
            return false;
        }
        i = i + 1;
    }
    true
}

/// Parses one (already trimmed) ladder entry.
fn parse_item(p: &str) -> (r: Option<LadderItem>)
    ensures
        r is Some <==> spec_parse_item(p@) is Some,
        r is Some ==> item_matches(r->0, spec_parse_item(p@)->0),
{
    let n = p.unicode_len();
    let e1 = digit_span_end(p, 0);
    let w = match parse_u32_range(p, 0, e1) {
        Some(w) => w,
        None => {
            return None;
        },
    };
    if e1 >= n || p.get_char(e1) != 'x' {
        return None;
    }
    let e2 = digit_span_end(p, e1 + 1);
    let h = match parse_u32_range(p, e1 + 1, e2) {
        Some(h) => h,
        None => {
            return None;
        },
    };
    if e2 >= n || p.get_char(e2) != '@' {
        return None;
    }
    let e3 = digit_span_end(p, e2 + 1);
    let v = match parse_u32_range(p, e2 + 1, e3) {
        Some(v) => v,
        None => {
            return None;
        },
    };
    if e3 >= n || p.get_char(e3) != 'k' {
        return None;
    }
    let mut pos = e3 + 1;
    let mut a: u32 = 128;
    if pos < n && p.get_char(pos) == '/' {
        let e4 = digit_span_end(p, pos + 1);
        a = match parse_u32_range(p, pos + 1, e4) {
            Some(a) => a,
            None => {
                return None;
            },
        };
        if e4 >= n || p.get_char(e4) != 'k' {
            return None;
        }
        pos = e4 + 1;
    }
    if pos < n && p.get_char(pos) == ':' {
        if pos + 1 >= n {
            return None;
        }
        let ghost nmspec = p@.subrange(pos + 1 as int, p@.len() as int);
        if !all_word_chars(p, pos + 1) {
            proof {
                let j = choose|j: int|
                    pos + 1 <= j < p@.len() && !word_char(#[trigger] p@[j]);
                assert(nmspec[j - (pos + 1)] == p@[j]);
            }
            return None;
        }
        let nm = p.substring_char(pos + 1, n);
        proof {
            assert(nm@ =~= nmspec);
            assert forall|i: int| 0 <= i < nmspec.len() implies word_char(
                #[trigger] nmspec[i],
            ) by {
                assert(nmspec[i] == p@[pos + 1 + i]);
            }
        }
        Some(LadderItem { w, h, v_bitrate_k: v, a_bitrate_k: a, name: nm.to_owned() })
    } else if pos == n {
        Some(LadderItem { w, h, v_bitrate_k: v, a_bitrate_k: a, name: row_name(h) })
    } else {
        None
    }
}

/// The position of the first comma at or after `i`, or the text's end.
fn comma_end(s: &str, i: usize) -> (r: usize)
    requires
        i <= s@.len(),
    ensures
        r as int == comma_pos(s@, i as int),
        i <= r <= s@.len(),
        decreases s@.len() - i,
{
    let n = s.unicode_len();
    let mut j = i;
    while j < n && s.get_char(j) != ','
        invariant
            i <= j <= n,
            n == s@.len(),
            comma_pos(s@, i as int) == comma_pos(s@, j as int),
        decreases n - j,
    {
        j = j + 1;
    }
    j
}

fn parse_parts(s: &str, i: usize) -> (r: Option<Vec<LadderItem>>)
    requires
        i <= s@.len(),
    ensures
        r is Some <==> spec_parse_parts(s@, i as int) is Some,
        r is Some ==> {
            let sp = spec_parse_parts(s@, i as int)->0;
            &&& r->0@.len() == sp.len()
            &&& forall|k: int| 0 <= k < sp.len() ==> item_matches(#[trigger] r->0@[k], sp[k])
        },
    decreases s@.len() - i,
{
    let j = comma_end(s, i);
    let (a, b) = trim_bounds(s, i, j);
    let part = s.substring_char(a, b);
    proof {
        assert(part@ =~= trim_range(s@, i as int, j as int));
    }
    let it = match parse_item(part) {
        Some(it) => it,
        None => {
            return None;
        },
    };
    if j >= s.unicode_len() {
        let mut v: Vec<LadderItem> = Vec::new();
        v.push(it);
        Some(v)
    } else {
        match parse_parts(s, j + 1) {
            None => None,
            Some(mut rest) => {
                let mut v: Vec<LadderItem> = Vec::new();
                v.push(it);
                v.append(&mut rest);
                Some(v)
            },
        }
    }
}

impl Ladder {
    /// The fixed three-rung default ladder: 360p, 720p and 1080p.
    pub fn fixed_360_720_1080() -> (r: Ladder)
        ensures
            r.items@.len() == 3,
            r.items@[0].w == 640 && r.items@[0].h == 360 && r.items@[0].v_bitrate_k == 700
                && r.items@[0].a_bitrate_k == 128 && r.items@[0].name@ == "360p"@,
            r.items@[1].w == 1280 && r.items@[1].h == 720 && r.items@[1].v_bitrate_k == 2200
                && r.items@[1].a_bitrate_k == 128 && r.items@[1].name@ == "720p"@,
            r.items@[2].w == 1920 && r.items@[2].h == 1080 && r.items@[2].v_bitrate_k == 4500
                && r.items@[2].a_bitrate_k == 192 && r.items@[2].name@ == "1080p"@,
    {
        let mut items: Vec<LadderItem> = Vec::new();
        items.push(
            LadderItem {
                w: 640,
                h: 360,
                v_bitrate_k: 700,
                a_bitrate_k: 128,
                name: "360p".to_owned(),
            },
        );
        items.push(
            LadderItem {
                w: 1280,
                h: 720,
                v_bitrate_k: 2200,
                a_bitrate_k: 128,
                name: "720p".to_owned(),
            },
        );
        items.push(
            LadderItem {
                w: 1920,
                h: 1080,
                v_bitrate_k: 4500,
                a_bitrate_k: 192,
                name: "1080p".to_owned(),
            },
        );
        Ladder { items }
    }

    /// Parses a ladder specification; `None` when any entry is malformed
    /// (an empty specification has one empty, malformed entry).
    pub fn from_string(text: &str) -> (r: Option<Ladder>)
        ensures
            r is Some <==> spec_parse_ladder(text@) is Some,
            r is Some ==> {
                let sp = spec_parse_ladder(text@)->0;
                &&& r->0.items@.len() == sp.len()
                &&& forall|k: int|
                    0 <= k < sp.len() ==> item_matches(#[trigger] r->0.items@[k], sp[k])
            },
    {
        match parse_parts(text, 0) {
            Some(items) => Some(Ladder { items }),
            None => None,
        }
    }
}

/// The rows the suggestion picks for a source of height `h`: a single low
/// rung for small sources, else the default rungs up to the source height,
/// extended for 1440p and 2160p sources.
pub open spec fn spec_suggest_rows(h: u32) -> Seq<(u32, u32, u32, u32)> {
    if h <= 480 {
        if h >= 360 {
            seq![(640u32, 360u32, 800u32, 128u32)]
        } else {
            Seq::empty()
        }
    } else {
        seq![(640u32, 360u32, 700u32, 128u32)] + (if h >= 720 {
            seq![(1280u32, 720u32, 2200u32, 128u32)]
        } else {
            Seq::empty()
        }) + (if h >= 1080 {
            seq![(1920u32, 1080u32, 4500u32, 192u32)]
        } else {
            Seq::empty()
        }) + (if h >= 1440 {
            seq![(2560u32, 1440u32, 8000u32, 256u32)]
        } else {
            Seq::empty()
        }) + (if h >= 2160 {
            seq![(3840u32, 2160u32, 14000u32, 320u32)]
        } else {
            Seq::empty()
        })
    }
}

/// Suggests a ladder for a source of the given dimensions: target heights
/// never exceed the source height, and bitrates taper with resolution.
/// Each rung is named after its height.
pub fn suggest_ladder_from_dims(w: u32, h: u32) -> (r: Ladder)
    ensures
        r.items@.len() == spec_suggest_rows(h).len(),
        forall|k: int|
            0 <= k < spec_suggest_rows(h).len() ==> {
                let row = spec_suggest_rows(h)[k];
                &&& (#[trigger] r.items@[k]).w == row.0
                &&& r.items@[k].h == row.1
                &&& r.items@[k].v_bitrate_k == row.2
                &&& r.items@[k].a_bitrate_k == row.3
                &&& r.items@[k].name@ == spec_row_name(row.1)
                &&& r.items@[k].h <= h
            },
{
    let mut items: Vec<LadderItem> = Vec::new();
    if h <= 480 {
        if h >= 360 {
            items.push(
                LadderItem {
                    w: 640,
                    h: 360,
                    v_bitrate_k: 800,
                    a_bitrate_k: 128,
                    name: row_name(360),
                },
            );
        }
    } else {
        items.push(
            LadderItem { w: 640, h: 360, v_bitrate_k: 700, a_bitrate_k: 128, name: row_name(360) },
        );
        if h >= 720 {
            items.push(
                LadderItem {
                    w: 1280,
                    h: 720,
                    v_bitrate_k: 2200,
                    a_bitrate_k: 128,
                    name: row_name(720),
                },
            );
        }
        if h >= 1080 {
            items.push(
                LadderItem {
                    w: 1920,
                    h: 1080,
                    v_bitrate_k: 4500,
                    a_bitrate_k: 192,
                    name: row_name(1080),
                },
            );
        }
        if h >= 1440 {
            items.push(
                LadderItem {
                    w: 2560,
                    h: 1440,
                    v_bitrate_k: 8000,
                    a_bitrate_k: 256,
                    name: row_name(1440),
                },
            );
        }
        if h >= 2160 {
            items.push(
                LadderItem {
                    w: 3840,
                    h: 2160,
                    v_bitrate_k: 14000,
                    a_bitrate_k: 320,
                    name: row_name(2160),
                },
            );
        }
    }
    let _ = w;
    Ladder { items }
}

} // verus!
