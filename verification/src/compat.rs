//! The encoder-compatibility front end's logic: parsing the accepted
//! subset of encoder-style command lines, reading timestamps, and building
//! the copy-codec remux and trim pipelines. The caller only locates and
//! runs the external launcher with the returned text.

use vstd::prelude::*;
use crate::scan::{contains_from, digit_span_end, digits_val, find_sub, is_digit_char,
    lemma_digits_val_upper, parse_u32_range, pow10, span_digits};
use crate::shell_escape::{shq, spec_shq};
use crate::strutil::{dec_str, str_eq, u64_to_dec};

verus! {

/// The options recognized from an encoder-style command line.
#[derive(Debug, Clone)]
pub struct FfmpegOpts {
    pub input: Option<String>,
    pub output: Option<String>,
    pub ss: Option<String>,
    pub t: Option<String>,
    pub to_: Option<String>,
    pub copy_video: bool,
    pub copy_audio: bool,
    pub faststart: bool,
    pub maps: Vec<String>,
}

impl Default for FfmpegOpts {
    /// Nothing recognized yet.
    fn default() -> (r: FfmpegOpts)
        ensures
            r.input is None,
            r.output is None,
            r.ss is None,
            r.t is None,
            r.to_ is None,
            !r.copy_video,
            !r.copy_audio,
            !r.faststart,
            r.maps@.len() == 0,
    {
        FfmpegOpts {
            input: None,
            output: None,
            ss: None,
            t: None,
            to_: None,
            copy_video: false,
            copy_audio: false,
            faststart: false,
            maps: Vec::new(),
        }
    }
}

/// The abstract image of the recognized options.
pub struct FfOptsSpec {
    pub input: Option<Seq<char>>,
    pub output: Option<Seq<char>>,
    pub ss: Option<Seq<char>>,
    pub t: Option<Seq<char>>,
    pub to_: Option<Seq<char>>,
    pub copy_video: bool,
    pub copy_audio: bool,
    pub faststart: bool,
    pub maps: Seq<Seq<char>>,
}

/// No options recognized.
pub open spec fn ff_init() -> FfOptsSpec {
    FfOptsSpec {
        input: None,
        output: None,
        ss: None,
        t: None,
        to_: None,
        copy_video: false,
        copy_audio: false,
        faststart: false,
        maps: Seq::empty(),
    }
}

/// The argument after position `i`, if there is one.
pub open spec fn arg_after(argv: Seq<Seq<char>>, i: int) -> Option<Seq<char>> {
    if i + 1 < argv.len() {
        Some(argv[i + 1])
    } else {
        None
    }
}

/// Does the word start with a dash?
pub open spec fn dashed(a: Seq<char>) -> bool {
    a.len() >= 1 && a[0] == '-'
}

/// One pass over the arguments from position `i` on, exactly as the
/// compatibility front end reads them: flag values may be missing at the
/// end of the line, an unknown dashed flag skips one value unless the next
/// word is dashed too, and a bare word becomes the output path.
pub open spec fn spec_ff_parse(argv: Seq<Seq<char>>, i: int, o: FfOptsSpec) -> FfOptsSpec
    decreases argv.len() - i,
{
    if i < 0 || i >= argv.len() {
        o
    } else {
        let a = argv[i];
        let skip2 = if i + 2 <= argv.len() {
            i + 2
        } else {
            argv.len() as int
        };
        if a == "-y"@ {
            spec_ff_parse(argv, i + 1, o)
        } else if a == "-i"@ {
            spec_ff_parse(argv, skip2, FfOptsSpec { input: arg_after(argv, i), ..o })
        } else if a == "-ss"@ {
            spec_ff_parse(argv, skip2, FfOptsSpec { ss: arg_after(argv, i), ..o })
        } else if a == "-t"@ {
            spec_ff_parse(argv, skip2, FfOptsSpec { t: arg_after(argv, i), ..o })
        } else if a == "-to"@ {
            spec_ff_parse(argv, skip2, FfOptsSpec { to_: arg_after(argv, i), ..o })
        } else if a == "-map"@ {
            spec_ff_parse(
                argv,
                skip2,
                FfOptsSpec {
                    maps: match arg_after(argv, i) {
                        Some(m) => o.maps.push(m),
                        None => o.maps,
                    },
                    ..o
                },
            )
        } else if a == "-c:v"@ {
            spec_ff_parse(
                argv,
                skip2,
                FfOptsSpec {
                    copy_video: match arg_after(argv, i) {
                        Some(v) => v == "copy"@,
                        None => false,
                    },
                    ..o
                },
            )
        } else if a == "-c:a"@ {
            spec_ff_parse(
                argv,
                skip2,
                FfOptsSpec {
                    copy_audio: match arg_after(argv, i) {
                        Some(v) => v == "copy"@,
                        None => false,
                    },
                    ..o
                },
            )
        } else if a == "-movflags"@ {
            spec_ff_parse(
                argv,
                skip2,
                FfOptsSpec {
                    faststart: o.faststart || (match arg_after(argv, i) {
                        Some(v) => contains_from(v, "+faststart"@, 0),
                        None => false,
                    }),
                    ..o
                },
            )
        } else if dashed(a) {
            if i + 1 < argv.len() && !dashed(argv[i + 1]) {
                spec_ff_parse(argv, skip2, o)
            } else {
                spec_ff_parse(argv, i + 1, o)
            }
        } else {
            spec_ff_parse(argv, i + 1, FfOptsSpec { output: Some(a), ..o })
        }
    }
}

/// The view of an optional string.
pub open spec fn opt_view(o: Option<String>) -> Option<Seq<char>> {
    match o {
        Some(s) => Some(s@),
        None => None,
    }
}

/// The recognized options agree with their abstract image.
pub open spec fn opts_match(o: FfmpegOpts, s: FfOptsSpec) -> bool {
    &&& opt_view(o.input) == s.input
    &&& opt_view(o.output) == s.output
    &&& opt_view(o.ss) == s.ss
    &&& opt_view(o.t) == s.t
    &&& opt_view(o.to_) == s.to_
    &&& o.copy_video == s.copy_video
    &&& o.copy_audio == s.copy_audio
    &&& o.faststart == s.faststart
    &&& o.maps.deep_view() == s.maps
}

/// The abstract image of the options held at a point of the scan.
pub open spec fn image_of(o: FfmpegOpts) -> FfOptsSpec {
    FfOptsSpec {
        input: opt_view(o.input),
        output: opt_view(o.output),
        ss: opt_view(o.ss),
        t: opt_view(o.t),
        to_: opt_view(o.to_),
        copy_video: o.copy_video,
        copy_audio: o.copy_audio,
        faststart: o.faststart,
        maps: o.maps.deep_view(),
    }
}

fn starts_with_dash(s: &str) -> (r: bool)
    ensures
        r == dashed(s@),
{
    s.unicode_len() >= 1 && s.get_char(0) == '-'
}

fn contains_faststart(s: &str) -> (r: bool)
    ensures
        r == contains_from(s@, "+faststart"@, 0),
{
    match find_sub(s, "+faststart", 0) {
        Some(_) => true,
        None => false,
    }
}

/// Reads the recognized options from the arguments, front to back.
pub fn parse_ffmpeg_args(argv: &Vec<String>) -> (r: FfmpegOpts)
    ensures
        opts_match(r, spec_ff_parse(argv.deep_view(), 0, ff_init())),
{
    let ghost av = argv.deep_view();
    let n = argv.len();
    let mut i: usize = 0;
    let mut o = FfmpegOpts::default();
    proof {
        assert(o.maps.deep_view() =~= Seq::<Seq<char>>::empty());
        assert(image_of(o) == ff_init());
    }
    while i < n
        invariant
            0 <= i <= n,
            n == av.len(),
            av == argv.deep_view(),
            spec_ff_parse(av, 0, ff_init()) == spec_ff_parse(av, i as int, image_of(o)),
        decreases n - i,
    {
        let ghost oi = image_of(o);
        let ghost i0 = i as int;
        proof {
            assert(av[i0] == argv@[i0]@);
            if i + 1 < n {
                assert(av[i0 + 1] == argv@[i0 + 1]@);
            }
        }
        let a = &argv[i];
        if str_eq(a.as_str(), "-y") {
            i = i + 1;
        } else if str_eq(a.as_str(), "-i") {
            if i + 1 < n {
                o.input = Some(argv[i + 1].clone());
            } else {
                o.input = None;
            }
            i = if n - i >= 2 {
                i + 2
            } else {
                n
            };
            proof {
                assert(image_of(o) == (FfOptsSpec { input: arg_after(av, i0), ..oi }));
            }
        } else if str_eq(a.as_str(), "-ss") {
            if i + 1 < n {
                o.ss = Some(argv[i + 1].clone());
            } else {
                o.ss = None;
            }
            i = if n - i >= 2 {
                i + 2
            } else {
                n
            };
            proof {
                assert(image_of(o) == (FfOptsSpec { ss: arg_after(av, i0), ..oi }));
            }
        } else if str_eq(a.as_str(), "-t") {
            if i + 1 < n {
                o.t = Some(argv[i + 1].clone());
            } else {
                o.t = None;
            }
            i = if n - i >= 2 {
                i + 2
            } else {
                n
            };
            proof {
                assert(image_of(o) == (FfOptsSpec { t: arg_after(av, i0), ..oi }));
            }
        } else if str_eq(a.as_str(), "-to") {
            if i + 1 < n {
                o.to_ = Some(argv[i + 1].clone());
            } else {
                o.to_ = None;
            }
            i = if n - i >= 2 {
                i + 2
            } else {
                n
            };
            proof {
                assert(image_of(o) == (FfOptsSpec { to_: arg_after(av, i0), ..oi }));
            }
        } else if str_eq(a.as_str(), "-map") {
            if i + 1 < n {
                o.maps.push(argv[i + 1].clone());
                proof {
                    assert(o.maps.deep_view() =~= oi.maps.push(av[i0 + 1]));
                }
            }
            i = if n - i >= 2 {
                i + 2
            } else {
                n
            };
            proof {
                assert(image_of(o) == (FfOptsSpec {
                    maps: match arg_after(av, i0) {
                        Some(m) => oi.maps.push(m),
                        None => oi.maps,
                    },
                    ..oi
                }));
            }
        } else if str_eq(a.as_str(), "-c:v") {
            if i + 1 < n {
                o.copy_video = str_eq(argv[i + 1].as_str(), "copy");
            } else {
                o.copy_video = false;
            }
            i = if n - i >= 2 {
                i + 2
            } else {
                n
            };
            proof {
                assert(image_of(o) == (FfOptsSpec {
                    copy_video: match arg_after(av, i0) {
                        Some(v) => v == "copy"@,
                        None => false,
                    },
                    ..oi
                }));
            }
        } else if str_eq(a.as_str(), "-c:a") {
            if i + 1 < n {
                o.copy_audio = str_eq(argv[i + 1].as_str(), "copy");
            } else {
                o.copy_audio = false;
            }
            i = if n - i >= 2 {
                i + 2
            } else {
                n
            };
            proof {
                assert(image_of(o) == (FfOptsSpec {
                    copy_audio: match arg_after(av, i0) {
                        Some(v) => v == "copy"@,
                        None => false,
                    },
                    ..oi
                }));
            }
        } else if str_eq(a.as_str(), "-movflags") {
            if i + 1 < n {
                if contains_faststart(argv[i + 1].as_str()) {
                    o.faststart = true;
                }
            }
            i = if n - i >= 2 {
                i + 2
            } else {
                n
            };
            proof {
                assert(image_of(o) == (FfOptsSpec {
                    faststart: oi.faststart || (match arg_after(av, i0) {
                        Some(v) => contains_from(v, "+faststart"@, 0),
                        None => false,
                    }),
                    ..oi
                }));
            }
        } else if starts_with_dash(a.as_str()) {
            if i + 1 < n && !starts_with_dash(argv[i + 1].as_str()) {
                i = if n - i >= 2 {
                    i + 2
                } else {
                    n
                };
            } else {
                i = i + 1;
            }
            proof {
                assert(image_of(o) == oi);
            }
        } else {
            o.output = Some(argv[i].clone());
            i = i + 1;
            proof {
                assert(image_of(o) == (FfOptsSpec { output: Some(av[i0]), ..oi }));
            }
        }
        proof {
            assert(spec_ff_parse(av, 0, ff_init()) == spec_ff_parse(av, i as int, image_of(o)));
        }
    }
    o
}

/// The value in milliseconds of one decimal-seconds field such as `12`,
/// `12.5` or `07.250`; a malformed field counts zero, and whole seconds
/// beyond what a 32-bit count can hold are treated as malformed. Only the
/// first three fractional digits matter.
pub open spec fn spec_part_ms(p: Seq<char>) -> int {
    let e = span_digits(p, 0);
    if e == 0 || digits_val(p.subrange(0, e)) > u32::MAX {
        0
    } else if e == p.len() {
        digits_val(p.subrange(0, e)) * 1000
    } else if p[e] == '.' && span_digits(p, e + 1) == p.len() {
        digits_val(p.subrange(0, e)) * 1000 + spec_frac3(p.subrange(e + 1, p.len() as int))
    } else {
        0
    }
}

/// The milliseconds named by a fractional-digit run.
pub open spec fn spec_frac3(f: Seq<char>) -> int {
    if f.len() >= 3 {
        digits_val(f.subrange(0, 3))
    } else if f.len() == 2 {
        digits_val(f) * 10
    } else if f.len() == 1 {
        digits_val(f) * 100
    } else {
        0
    }
}

/// The first colon at or after `i`, or the end of the text.
pub open spec fn colon_pos(s: Seq<char>, i: int) -> int
    decreases s.len() - i,
{
    if i < 0 || i >= s.len() || s[i] == ':' {
        i
    } else {
        colon_pos(s, i + 1)
    }
}

proof fn lemma_colon_pos_ge(s: Seq<char>, i: int)
    ensures
        colon_pos(s, i) >= i,
    decreases s.len() - i,
{
    if !(i < 0 || i >= s.len() || s[i] == ':') {
        lemma_colon_pos_ge(s, i + 1);
    }
}

/// The colon-separated fields of a timestamp, left to right.
pub open spec fn spec_ts_fields(s: Seq<char>, i: int) -> Seq<Seq<char>>
    decreases s.len() - i,
    via spec_ts_fields_decreases
{
    let j = colon_pos(s, i);
    if j >= s.len() {
        seq![s.subrange(i, s.len() as int)]
    } else {
        seq![s.subrange(i, j)] + spec_ts_fields(s, j + 1)
    }
}

#[via_fn]
proof fn spec_ts_fields_decreases(s: Seq<char>, i: int) {
    lemma_colon_pos_ge(s, i);
}

/// The milliseconds a whole timestamp names: `H:M:S` and `M:S` weight
/// their fields, anything else sums its fields as plain seconds.
pub open spec fn spec_timestamp_ms(s: Seq<char>) -> int {
    let fs = spec_ts_fields(s, 0);
    if fs.len() == 3 {
        spec_part_ms(fs[0]) * 3600 + spec_part_ms(fs[1]) * 60 + spec_part_ms(fs[2])
    } else if fs.len() == 2 {
        spec_part_ms(fs[0]) * 60 + spec_part_ms(fs[1])
    } else {
        spec_sum_parts(fs, fs.len() as int)
    }
}

/// The sum of the first `n` fields, as plain seconds.
pub open spec fn spec_sum_parts(fs: Seq<Seq<char>>, n: int) -> int
    decreases n,
{
    if n <= 0 {
        0
    } else {
        spec_sum_parts(fs, n - 1) + spec_part_ms(fs[n - 1])
    }
}

/// Reads one decimal-seconds field.
fn parse_part_ms(p: &str) -> (r: u64)
    ensures
        r as int == spec_part_ms(p@),
        r <= 0xFFFF_FFFFu64 * 1000 + 999,
{
    let n = p.unicode_len();
    let e = digit_span_end(p, 0);
    let whole = match parse_u32_range(p, 0, e) {
        Some(w) => w,
        None => {
            return 0;
        },
    };
    if e == n {
        return (whole as u64) * 1000;
    }
    if p.get_char(e) != '.' {
        return 0;
    }
    let e2 = digit_span_end(p, e + 1);
    if e2 != n {
        return 0;
    }
    let ghost f = p@.subrange(e + 1, p@.len() as int);
    let flen = n - (e + 1);
    proof {
        assert(pow10(0) == 1 && pow10(1) == 10 && pow10(2) == 100 && pow10(3) == 1000);
    }
    let frac: u64 = if flen >= 3 {
        proof {
            assert(f.subrange(0, 3) =~= p@.subrange(e + 1, e + 4));
            lemma_digits_val_upper(f.subrange(0, 3));
        }
        match parse_u32_range(p, e + 1, e + 4) {
            Some(v) => v as u64,
            None => 0,
        }
    } else if flen == 2 {
        proof {
            assert(f =~= p@.subrange(e + 1, e + 3));
            lemma_digits_val_upper(f);
        }
        match parse_u32_range(p, e + 1, e + 3) {
            Some(v) => (v as u64) * 10,
            None => 0,
        }
    } else if flen == 1 {
        proof {
            assert(f =~= p@.subrange(e + 1, e + 2));
            lemma_digits_val_upper(f);
        }
        match parse_u32_range(p, e + 1, e + 2) {
            Some(v) => (v as u64) * 100,
            None => 0,
        }
    } else {
        0
    };
    (whole as u64) * 1000 + frac
}

/// The position of the first colon at or after `i`, or the text's end.
fn colon_end(s: &str, i: usize) -> (r: usize)
    requires
        i <= s@.len(),
    ensures
        r as int == colon_pos(s@, i as int),
        i <= r <= s@.len(),
{
    let n = s.unicode_len();
    let mut j = i;
    while j < n && s.get_char(j) != ':'
        invariant
            i <= j <= n,
            n == s@.len(),
            colon_pos(s@, i as int) == colon_pos(s@, j as int),
        decreases n - j,
    {
        j = j + 1;
    }
    j
}

/// The value of each colon-separated field from position `i` on.
fn parse_fields(s: &str, i: usize) -> (r: Vec<u64>)
    requires
        i <= s@.len(),
    ensures
        r@.len() == spec_ts_fields(s@, i as int).len(),
        forall|k: int|
            0 <= k < r@.len() ==> (#[trigger] r@[k]) as int == spec_part_ms(
                spec_ts_fields(s@, i as int)[k],
            ) && r@[k] <= 0xFFFF_FFFFu64 * 1000 + 999,
    decreases s@.len() - i,
{
    let j = colon_end(s, i);
    let part = s.substring_char(i, j);
    proof {
        assert(part@ =~= s@.subrange(i as int, j as int));
        if j >= s@.len() {
            assert(part@ =~= s@.subrange(i as int, s@.len() as int));
        }
    }
    let v = parse_part_ms(part);
    if j >= s.unicode_len() {
        let mut r: Vec<u64> = Vec::new();
        r.push(v);
        r
    } else {
        let mut rest = parse_fields(s, j + 1);
        let mut r: Vec<u64> = Vec::new();
        r.push(v);
        r.append(&mut rest);
        r
    }
}

/// Caps a count at what a 64-bit field can hold.
pub open spec fn cap64(x: int) -> int {
    if x > u64::MAX {
        u64::MAX as int
    } else {
        x
    }
}

/// Reads a timestamp, in milliseconds, capped at what a 64-bit count can
/// hold.
pub fn parse_timestamp_ms(s: &str) -> (r: u64)
    ensures
        r as int == cap64(spec_timestamp_ms(s@)),
{
    let fields = parse_fields(s, 0);
    let ghost fs = spec_ts_fields(s@, 0);
    if fields.len() == 3 {
        fields[0] * 3600 + fields[1] * 60 + fields[2]
    } else if fields.len() == 2 {
        fields[0] * 60 + fields[1]
    } else {
        let mut acc: u128 = 0;
        let mut k: usize = 0;
        let n = fields.len();
        while k < n
            invariant
                0 <= k <= n,
                n == fields@.len(),
                n == fs.len(),
                fs == spec_ts_fields(s@, 0),
                forall|j: int|
                    0 <= j < n ==> (#[trigger] fields@[j]) as int == spec_part_ms(fs[j])
                        && fields@[j] <= 0xFFFF_FFFFu64 * 1000 + 999,
                acc as int == spec_sum_parts(fs, k as int),
                acc as int <= (k as int) * (0xFFFF_FFFFu64 as int * 1000 + 999),
            decreases n - k,
        {
            proof {
                let c: int = 0xFFFF_FFFFu64 as int * 1000 + 999;
                assert((k as int + 1) * c == (k as int) * c + c) by (nonlinear_arith);
                assert((k as int + 1) * c <= 0x1_0000_0000_0000_0000 * c) by (nonlinear_arith)
                    requires
                        0 <= k as int + 1 <= 0x1_0000_0000_0000_0000,
                        c == 0xFFFF_FFFFu64 as int * 1000 + 999,
                ;
            }
            acc = acc + (fields[k] as u128);
            k = k + 1;
        }
        if acc > (u64::MAX as u128) {
            u64::MAX
        } else {
            acc as u64
        }
    }
}

/// The trim window the options ask for: the start, and the end taken from
/// the duration (added to the start) or the absolute stop time; zero
/// stands for "not given". All in milliseconds, capped at 64 bits.
pub open spec fn spec_trim_window(
    ss: Option<Seq<char>>,
    t: Option<Seq<char>>,
    to_: Option<Seq<char>>,
) -> (int, int) {
    let start = match ss {
        Some(x) => cap64(spec_timestamp_ms(x)),
        None => 0,
    };
    let end = match t {
        Some(x) => cap64(start + cap64(spec_timestamp_ms(x))),
        None => match to_ {
            Some(x) => cap64(spec_timestamp_ms(x)),
            None => 0,
        },
    };
    (start, end)
}

/// Computes the trim window of the recognized options.
pub fn trim_window_ms(o: &FfmpegOpts) -> (r: (u64, u64))
    ensures
        r.0 as int == spec_trim_window(opt_view(o.ss), opt_view(o.t), opt_view(o.to_)).0,
        r.1 as int == spec_trim_window(opt_view(o.ss), opt_view(o.t), opt_view(o.to_)).1,
{
    let start = match &o.ss {
        Some(x) => parse_timestamp_ms(x.as_str()),
        None => 0,
    };
    let end = match &o.t {
        Some(x) => {
            let d = parse_timestamp_ms(x.as_str());
            if start > u64::MAX - d {
                u64::MAX
            } else {
                start + d
            }
        },
        None => match &o.to_ {
            Some(x) => parse_timestamp_ms(x.as_str()),
            None => 0,
        },
    };
    (start, end)
}

/// The copy-codec remux pipeline (no trim): demux, buffer both elementary
/// streams, and remux into the output container.
pub open spec fn spec_remux_pipeline(input: Seq<char>, output: Seq<char>, faststart: bool) -> Seq<
    char,
> {
    "filesrc location="@ + spec_shq(input) + " ! qtdemux name=d d.video_0 ! queue ! identity ! qtmux "@
        + (if faststart {
        "faststart=true"@
    } else {
        Seq::<char>::empty()
    }) + " name=mux ! filesink location="@ + spec_shq(output)
        + " d.audio_0 ! queue ! identity ! mux."@
}

/// Builds the no-trim remux pipeline.
pub fn build_remux_pipeline(input: &str, output: &str, faststart: bool) -> (r: String)
    ensures
        r@ == spec_remux_pipeline(input@, output@, faststart),
{
    let mut s = "filesrc location=".to_owned();
    let qi = shq(input);
    s.append(qi.as_str());
    s.append(" ! qtdemux name=d d.video_0 ! queue ! identity ! qtmux ");
    if faststart {
        s.append("faststart=true");
    }
    s.append(" name=mux ! filesink location=");
    let qo = shq(output);
    s.append(qo.as_str());
    s.append(" d.audio_0 ! queue ! identity ! mux.");
    proof {
        assert(s@ =~= spec_remux_pipeline(input@, output@, faststart));
    }
    s
}

/// The timestamp-offset stage of a trimmed branch; nothing when the trim
/// starts at zero.
pub open spec fn spec_offset_stage(ss_ms: int) -> Seq<char> {
    if ss_ms > 0 {
        "identity timestamp-offset=-"@ + dec_str(cap64(ss_ms * 1000000) as nat) + " ! "@
    } else {
        Seq::<char>::empty()
    }
}

/// The trim pipeline: like the remux pipeline, but both elementary
/// streams pass a negative timestamp offset of the trim start, so audio
/// and video stay aligned; the video branch also normalizes its frame
/// timing first.
pub open spec fn spec_trim_pipeline(
    input: Seq<char>,
    output: Seq<char>,
    faststart: bool,
    ss_ms: int,
) -> Seq<char> {
    "filesrc location="@ + spec_shq(input) + " ! qtdemux name=d "@ + "d.video_0 ! queue ! "@ + (if ss_ms
        > 0 {
        "videorate ! "@
    } else {
        Seq::<char>::empty()
    }) + spec_offset_stage(ss_ms) + "identity ! mux. "@ + "d.audio_0 ! queue ! "@
        + spec_offset_stage(ss_ms) + "identity ! mux. "@ + "qtmux "@ + (if faststart {
        "faststart=true"@
    } else {
        Seq::<char>::empty()
    }) + " name=mux ! filesink location="@ + spec_shq(output)
}

/// Appends the timestamp-offset stage for a trim starting at `ss_ms`.
fn append_offset_stage(s: &mut String, ss_ms: u64)
    ensures
        final(s)@ == old(s)@ + spec_offset_stage(ss_ms as int),
{
    if ss_ms > 0 {
        s.append("identity timestamp-offset=-");
        let ns: u128 = (ss_ms as u128) * 1000000;
        let capped: u64 = if ns > (u64::MAX as u128) {
            u64::MAX
        } else {
            ns as u64
        };
        let d = u64_to_dec(capped);
        s.append(d.as_str());
        s.append(" ! ");
    }
}

/// Builds the trim pipeline for a trim starting at `ss_ms` milliseconds.
pub fn build_trim_pipeline(input: &str, output: &str, faststart: bool, ss_ms: u64) -> (r: String)
    ensures
        r@ == spec_trim_pipeline(input@, output@, faststart, ss_ms as int),
{
    let mut s = "filesrc location=".to_owned();
    let qi = shq(input);
    s.append(qi.as_str());
    s.append(" ! qtdemux name=d ");
    s.append("d.video_0 ! queue ! ");
    if ss_ms > 0 {
        s.append("videorate ! ");
    }
    append_offset_stage(&mut s, ss_ms);
    s.append("identity ! mux. ");
    s.append("d.audio_0 ! queue ! ");
    append_offset_stage(&mut s, ss_ms);
    s.append("identity ! mux. ");
    s.append("qtmux ");
    if faststart {
        s.append("faststart=true");
    }
    s.append(" name=mux ! filesink location=");
    let qo = shq(output);
    s.append(qo.as_str());
    proof {
        assert(s@ =~= spec_trim_pipeline(input@, output@, faststart, ss_ms as int));
    }
    s
}

} // verus!
