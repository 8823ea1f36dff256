//! The probe-compatibility front end's logic: reads the line-oriented
//! report of the external stream discoverer and renders it as the JSON
//! document other tools expect.
//!
//! The grammar accepted per line: the first line carrying `Duration: `
//! names the duration (the trimmed remainder of the line is an `H:M:S.f`
//! timestamp); the last line carrying `container:` names the container
//! (trimmed remainder); a line carrying `video:` followed by `codec=` and
//! a word, then `width=` digits immediately followed by `, height=` and
//! digits, describes a video stream; and the same with `audio:`, `rate=`
//! and `, channels=` describes an audio stream.

use vstd::prelude::*;
use crate::compat::{cap64, spec_timestamp_ms, parse_timestamp_ms};
use crate::ladder::word_char;
use crate::scan::{digit_span_end, digits_val, find_first, first_match, is_digit_char, match_at,
    matches_at, parse_u32_range, span_digits, trim_bounds, trim_range};
use crate::strutil::{ascii_lower, dec_str, dec_digit_char, esc_json, json_quote, lower_seq,
    u64_to_dec, u64_to_dec_pad3};

verus! {

/// One discovered video stream line.
#[derive(Debug, Clone)]
pub struct VideoLine {
    pub codec: String,
    pub width: u32,
    pub height: u32,
}

/// One discovered audio stream line.
#[derive(Debug, Clone)]
pub struct AudioLine {
    pub codec: String,
    pub rate: u32,
    pub channels: u32,
}

/// Everything read from one discoverer report.
#[derive(Debug, Clone)]
pub struct DiscoverSummary {
    pub duration_ms: Option<u64>,
    pub container: Option<String>,
    pub videos: Vec<VideoLine>,
    pub audios: Vec<AudioLine>,
}

/// The abstract image of a summary.
pub struct DiscImage {
    pub duration_ms: Option<int>,
    pub container: Option<Seq<char>>,
    pub videos: Seq<(Seq<char>, u32, u32)>,
    pub audios: Seq<(Seq<char>, u32, u32)>,
}

/// Nothing read yet.
pub open spec fn disc_init() -> DiscImage {
    DiscImage { duration_ms: None, container: None, videos: Seq::empty(), audios: Seq::empty() }
}

/// The abstract image of a video line.
pub open spec fn vline(v: VideoLine) -> (Seq<char>, u32, u32) {
    (v.codec@, v.width, v.height)
}

/// The abstract image of an audio line.
pub open spec fn aline(a: AudioLine) -> (Seq<char>, u32, u32) {
    (a.codec@, a.rate, a.channels)
}

/// The abstract image of a whole summary.
pub open spec fn image_of(s: DiscoverSummary) -> DiscImage {
    DiscImage {
        duration_ms: match s.duration_ms {
            Some(d) => Some(d as int),
            None => None,
        },
        container: match s.container {
            Some(c) => Some(c@),
            None => None,
        },
        videos: s.videos@.map_values(|v: VideoLine| vline(v)),
        audios: s.audios@.map_values(|a: AudioLine| aline(a)),
    }
}

/// The value of a digit run, with values beyond 32 bits reading as zero.
pub open spec fn num_or_zero(s: Seq<char>, i: int, e: int) -> u32 {
    if digits_val(s.subrange(i, e)) > u32::MAX {
        0
    } else {
        digits_val(s.subrange(i, e)) as u32
    }
}

/// Where the word starting at `i` ends.
pub open spec fn span_word(s: Seq<char>, i: int) -> int
    decreases s.len() - i,
{
    if i < 0 || i >= s.len() || !word_char(s[i]) {
        i
    } else {
        span_word(s, i + 1)
    }
}

fn is_word_at(s: &str, j: usize) -> (r: bool)
    requires
        j < s@.len(),
    ensures
        r == word_char(s@[j as int]),
{
    let c = s.get_char(j);
    let u = c as u32;
    (97 <= u && u <= 122) || (65 <= u && u <= 90) || (48 <= u && u <= 57) || c == '_'
}

fn word_span_end(s: &str, i: usize) -> (r: usize)
    requires
        i <= s@.len(),
    ensures
        r as int == span_word(s@, i as int),
        i <= r <= s@.len(),
{
    let n = s.unicode_len();
    let mut j = i;
    while j < n && is_word_at(s, j)
        invariant
            i <= j <= n,
            n == s@.len(),
            span_word(s@, i as int) == span_word(s@, j as int),
        decreases n - j,
    {
        j = j + 1;
    }
    j
}

/// What a duration line names, in milliseconds.
pub open spec fn line_duration(line: Seq<char>) -> Option<int> {
    let m = first_match(line, "Duration: "@, 0);
    if m < 0 {
        None
    } else {
        Some(
            cap64(
                spec_timestamp_ms(
                    trim_range(line, m + "Duration: "@.len(), line.len() as int),
                ),
            ),
        )
    }
}

/// What a container line names.
pub open spec fn line_container(line: Seq<char>) -> Option<Seq<char>> {
    let m = first_match(line, "container:"@, 0);
    if m < 0 {
        None
    } else {
        Some(trim_range(line, m + "container:"@.len(), line.len() as int))
    }
}

/// What a video stream line names: the codec (folded to lower case), the
/// width and the height.
pub open spec fn line_video(line: Seq<char>) -> Option<(Seq<char>, u32, u32)> {
    let v = first_match(line, "video:"@, 0);
    if v < 0 {
        None
    } else {
        let c = first_match(line, "codec="@, v + "video:"@.len());
        if c < 0 {
            None
        } else {
            let ws = c + "codec="@.len();
            let we = span_word(line, ws);
            if we == ws {
                None
            } else {
                let wm = first_match(line, "width="@, we);
                if wm < 0 {
                    None
                } else {
                    let ds = wm + "width="@.len();
                    let de = span_digits(line, ds);
                    if de == ds || !match_at(line, ", height="@, de) {
                        None
                    } else {
                        let hs = de + ", height="@.len();
                        let he = span_digits(line, hs);
                        if he == hs {
                            None
                        } else {
                            Some(
                                (
                                    lower_seq(line.subrange(ws, we)),
                                    num_or_zero(line, ds, de),
                                    num_or_zero(line, hs, he),
                                ),
                            )
                        }
                    }
                }
            }
        }
    }
}

/// What an audio stream line names: the codec (folded to lower case), the
/// sample rate and the channel count.
pub open spec fn line_audio(line: Seq<char>) -> Option<(Seq<char>, u32, u32)> {
    let v = first_match(line, "audio:"@, 0);
    if v < 0 {
        None
    } else {
        let c = first_match(line, "codec="@, v + "audio:"@.len());
        if c < 0 {
            None
        } else {
            let ws = c + "codec="@.len();
            let we = span_word(line, ws);
            if we == ws {
                None
            } else {
                let wm = first_match(line, "rate="@, we);
                if wm < 0 {
                    None
                } else {
                    let ds = wm + "rate="@.len();
                    let de = span_digits(line, ds);
                    if de == ds || !match_at(line, ", channels="@, de) {
                        None
                    } else {
                        let hs = de + ", channels="@.len();
                        let he = span_digits(line, hs);
                        if he == hs {
                            None
                        } else {
                            Some(
                                (
                                    lower_seq(line.subrange(ws, we)),
                                    num_or_zero(line, ds, de),
                                    num_or_zero(line, hs, he),
                                ),
                            )
                        }
                    }
                }
            }
        }
    }
}

fn parse_num_or_zero(line: &str, ds: usize, de: usize) -> (r: u32)
    requires
        ds <= de <= line@.len(),
        forall|k: int| ds <= k < de ==> is_digit_char(#[trigger] line@[k]),
        ds < de,
    ensures
        r == num_or_zero(line@, ds as int, de as int),
{
    match parse_u32_range(line, ds, de) {
        Some(v) => v,
        None => 0,
    }
}

/// Reads one line as a video stream line.
fn parse_video_line(line: &str) -> (r: Option<VideoLine>)
    ensures
        r is Some <==> line_video(line@) is Some,
        r is Some ==> vline(r->0) == line_video(line@)->0,
{
    let n = line.unicode_len();
    let v = match find_first(line, "video:", 0) {
        Some(v) => v,
        None => {
            return None;
        },
    };
    let c = match find_first(line, "codec=", v + "video:".unicode_len()) {
        Some(c) => c,
        None => {
            return None;
        },
    };
    let ws = c + "codec=".unicode_len();
    let we = word_span_end(line, ws);
    if we == ws {
        return None;
    }
    let wm = match find_first(line, "width=", we) {
        Some(wm) => wm,
        None => {
            return None;
        },
    };
    let ds = wm + "width=".unicode_len();
    let de = digit_span_end(line, ds);
    if de == ds {
        return None;
    }
    if n - de < ", height=".unicode_len() || !matches_at(line, ", height=", de) {
        return None;
    }
    let hs = de + ", height=".unicode_len();
    let he = digit_span_end(line, hs);
    if he == hs {
        return None;
    }
    let word = line.substring_char(ws, we);
    proof {
        assert(word@ =~= line@.subrange(ws as int, we as int));
    }
    let codec = ascii_lower(word);
    let width = parse_num_or_zero(line, ds, de);
    let height = parse_num_or_zero(line, hs, he);
    Some(VideoLine { codec, width, height })
}

/// Reads one line as an audio stream line.
fn parse_audio_line(line: &str) -> (r: Option<AudioLine>)
    ensures
        r is Some <==> line_audio(line@) is Some,
        r is Some ==> aline(r->0) == line_audio(line@)->0,
{
    let n = line.unicode_len();
    let v = match find_first(line, "audio:", 0) {
        Some(v) => v,
        None => {
            return None;
        },
    };
    let c = match find_first(line, "codec=", v + "audio:".unicode_len()) {
        Some(c) => c,
        None => {
            return None;
        },
    };
    let ws = c + "codec=".unicode_len();
    let we = word_span_end(line, ws);
    if we == ws {
        return None;
    }
    let wm = match find_first(line, "rate=", we) {
        Some(wm) => wm,
        None => {
            return None;
        },
    };
    let ds = wm + "rate=".unicode_len();
    let de = digit_span_end(line, ds);
    if de == ds {
        return None;
    }
    if n - de < ", channels=".unicode_len() || !matches_at(line, ", channels=", de) {
        return None;
    }
    let hs = de + ", channels=".unicode_len();
    let he = digit_span_end(line, hs);
    if he == hs {
        return None;
    }
    let word = line.substring_char(ws, we);
    proof {
        assert(word@ =~= line@.subrange(ws as int, we as int));
    }
    let codec = ascii_lower(word);
    let rate = parse_num_or_zero(line, ds, de);
    let channels = parse_num_or_zero(line, hs, he);
    Some(AudioLine { codec, rate, channels })
}

/// Reads one line as a duration, in milliseconds.
fn parse_duration_line(line: &str) -> (r: Option<u64>)
    ensures
        r is Some <==> line_duration(line@) is Some,
        r is Some ==> r->0 as int == line_duration(line@)->0,
{
    let n = line.unicode_len();
    let at = match find_first(line, "Duration: ", 0) {
        Some(at) => at,
        None => {
            return None;
        },
    };
    let start = at + "Duration: ".unicode_len();
    let (a, b) = trim_bounds(line, start, n);
    let part = line.substring_char(a, b);
    proof {
        assert(part@ =~= trim_range(line@, start as int, n as int));
    }
    Some(parse_timestamp_ms(part))
}

/// Reads one line as a container name.
fn parse_container_line(line: &str) -> (r: Option<String>)
    ensures
        r is Some <==> line_container(line@) is Some,
        r is Some ==> r->0@ == line_container(line@)->0,
{
    let n = line.unicode_len();
    let at = match find_first(line, "container:", 0) {
        Some(at) => at,
        None => {
            return None;
        },
    };
    let start = at + "container:".unicode_len();
    let (a, b) = trim_bounds(line, start, n);
    let part = line.substring_char(a, b);
    proof {
        assert(part@ =~= trim_range(line@, start as int, n as int));
    }
    Some(part.to_owned())
}

/// The first newline at or after `i`, or the end of the text.
pub open spec fn newline_pos(s: Seq<char>, i: int) -> int
    decreases s.len() - i,
{
    if i < 0 || i >= s.len() || s[i] == '\n' {
        i
    } else {
        newline_pos(s, i + 1)
    }
}

proof fn lemma_newline_pos_ge(s: Seq<char>, i: int)
    ensures
        newline_pos(s, i) >= i,
    decreases s.len() - i,
{
    if !(i < 0 || i >= s.len() || s[i] == '\n') {
        lemma_newline_pos_ge(s, i + 1);
    }
}

/// What one line adds to the summary: the first duration wins, the last
/// container wins, and stream lines accumulate in order.
pub open spec fn scan_step(acc: DiscImage, line: Seq<char>) -> DiscImage {
    DiscImage {
        duration_ms: if acc.duration_ms is Some {
            acc.duration_ms
        } else {
            line_duration(line)
        },
        container: match line_container(line) {
            Some(c) => Some(c),
            None => acc.container,
        },
        videos: match line_video(line) {
            Some(t) => acc.videos.push(t),
            None => acc.videos,
        },
        audios: match line_audio(line) {
            Some(t) => acc.audios.push(t),
            None => acc.audios,
        },
    }
}

/// The whole report folded line by line from position `i`.
pub open spec fn spec_scan(s: Seq<char>, i: int, acc: DiscImage) -> DiscImage
    decreases s.len() - i,
    via spec_scan_decreases
{
    let j = newline_pos(s, i);
    let acc2 = scan_step(acc, s.subrange(i, j));
    if j >= s.len() {
        acc2
    } else {
        spec_scan(s, j + 1, acc2)
    }
}

#[via_fn]
proof fn spec_scan_decreases(s: Seq<char>, i: int, acc: DiscImage) {
    lemma_newline_pos_ge(s, i);
}

/// The position of the first newline at or after `i`, or the text's end.
fn newline_end(s: &str, i: usize) -> (r: usize)
    requires
        i <= s@.len(),
    ensures
        r as int == newline_pos(s@, i as int),
        i <= r <= s@.len(),
{
    let n = s.unicode_len();
    let mut j = i;
    while j < n && s.get_char(j) != '\n'
        invariant
            i <= j <= n,
            n == s@.len(),
            newline_pos(s@, i as int) == newline_pos(s@, j as int),
        decreases n - j,
    {
        j = j + 1;
    }
    j
}

/// Reads a whole discoverer report.
pub fn scan_discoverer(text: &str) -> (r: DiscoverSummary)
    ensures
        image_of(r) == spec_scan(text@, 0, disc_init()),
{
    let mut sum = DiscoverSummary {
        duration_ms: None,
        container: None,
        videos: Vec::new(),
        audios: Vec::new(),
    };
    proof {
        assert(sum.videos@.map_values(|v: VideoLine| vline(v)) =~= Seq::<
            (Seq<char>, u32, u32),
        >::empty());
        assert(sum.audios@.map_values(|a: AudioLine| aline(a)) =~= Seq::<
            (Seq<char>, u32, u32),
        >::empty());
        assert(image_of(sum) == disc_init());
    }
    let n = text.unicode_len();
    let mut i: usize = 0;
    loop
        invariant_except_break
            0 <= i <= n,
            n == text@.len(),
            spec_scan(text@, 0, disc_init()) == spec_scan(text@, i as int, image_of(sum)),
        ensures
            image_of(sum) == spec_scan(text@, 0, disc_init()),
        decreases n - i,
    {
        let ghost acc0 = image_of(sum);
        let ghost i0 = i as int;
        let j = newline_end(text, i);
        let line = text.substring_char(i, j);
        proof {
            assert(line@ =~= text@.subrange(i0, j as int));
        }
        match parse_duration_line(line) {
            Some(d) => {
                if sum.duration_ms.is_none() {
                    sum.duration_ms = Some(d);
                }
            },
            None => {},
        }
        match parse_container_line(line) {
            Some(c) => {
                sum.container = Some(c);
            },
            None => {},
        }
        match parse_video_line(line) {
            Some(v) => {
                sum.videos.push(v);
                proof {
                    assert(sum.videos@.map_values(|v: VideoLine| vline(v)) =~= acc0.videos.push(
                        line_video(line@)->0,
                    ));
                }
            },
            None => {},
        }
        match parse_audio_line(line) {
            Some(a) => {
                sum.audios.push(a);
                proof {
                    assert(sum.audios@.map_values(|a: AudioLine| aline(a)) =~= acc0.audios.push(
                        line_audio(line@)->0,
                    ));
                }
            },
            None => {},
        }
        proof {
            assert(image_of(sum) == scan_step(acc0, line@));
            assert(spec_scan(text@, 0, disc_init()) == spec_scan(text@, i0, acc0));
            assert(spec_scan(text@, i0, acc0) == (if j as int >= text@.len() {
                scan_step(acc0, line@)
            } else {
                spec_scan(text@, j + 1 as int, scan_step(acc0, line@))
            }));
        }
        if j >= n {
            break ;
        }
        i = j + 1;
    }
    sum
}

/// A text as a JSON string.
pub open spec fn jstr(s: Seq<char>) -> Seq<char> {
    seq!['"'] + esc_json(s) + seq!['"']
}

/// Seconds with three decimals, from milliseconds.
pub open spec fn secs3(ms: int) -> Seq<char>
    recommends
        ms >= 0,
{
    dec_str((ms / 1000) as nat) + seq!['.'] + seq![
        dec_digit_char((ms % 1000) / 100),
        dec_digit_char(((ms % 1000) / 10) % 10),
        dec_digit_char((ms % 1000) % 10),
    ]
}

/// The JSON object for one video stream.
pub open spec fn spec_video_item(idx: nat, t: (Seq<char>, u32, u32)) -> Seq<char> {
    "{\"index\":"@ + dec_str(idx) + ",\"codec_type\":\"video\",\"codec_name\":"@ + jstr(t.0)
        + ",\"width\":"@ + dec_str(t.1 as nat) + ",\"height\":"@ + dec_str(t.2 as nat)
        + ",\"r_frame_rate\":\"0/0\",\"avg_frame_rate\":\"0/0\",\"pix_fmt\":null,\"tags\":{}}"@
}

/// The JSON object for one audio stream (the sample rate is carried as a
/// string, as the compatible tools write it).
pub open spec fn spec_audio_item(idx: nat, t: (Seq<char>, u32, u32)) -> Seq<char> {
    "{\"index\":"@ + dec_str(idx) + ",\"codec_type\":\"audio\",\"codec_name\":"@ + jstr(t.0)
        + ",\"sample_rate\":\""@ + dec_str(t.1 as nat) + "\",\"channels\":"@ + dec_str(t.2 as nat)
        + ",\"channel_layout\":null,\"tags\":{}}"@
}

/// Texts joined with commas.
pub open spec fn join_items(items: Seq<Seq<char>>) -> Seq<char>
    decreases items.len(),
{
    if items.len() == 0 {
        Seq::empty()
    } else if items.len() == 1 {
        items[0]
    } else {
        join_items(items.drop_last()) + ","@ + items.last()
    }
}

/// The rendered stream objects: videos first, then audios, each indexed
/// by its position.
pub open spec fn stream_items(
    vs: Seq<(Seq<char>, u32, u32)>,
    aus: Seq<(Seq<char>, u32, u32)>,
) -> Seq<Seq<char>> {
    Seq::new(vs.len(), |k: int| spec_video_item(k as nat, vs[k])) + Seq::new(
        aus.len(),
        |k: int| spec_audio_item((vs.len() + k) as nat, aus[k]),
    )
}

/// The whole probe document for one input.
pub open spec fn spec_ffprobe_json(input: Seq<char>, d: DiscImage) -> Seq<char> {
    "{\"streams\":["@ + join_items(stream_items(d.videos, d.audios))
        + "],\"format\":{\"filename\":"@ + jstr(input) + ",\"nb_streams\":"@ + dec_str(
        (d.videos.len() + d.audios.len()) as nat,
    ) + ",\"format_name\":"@ + jstr(
        match d.container {
            Some(c) => c,
            None => "unknown"@,
        },
    ) + ",\"duration\":\""@ + secs3(
        match d.duration_ms {
            Some(m) => m,
            None => 0,
        },
    ) + "\",\"size\":null,\"bit_rate\":null,\"tags\":{}}}"@
}

fn append_jstr(out: &mut String, s: &str)
    ensures
        final(out)@ == old(out)@ + jstr(s@),
{
    let q = json_quote(s);
    out.append(q.as_str());
}

fn video_item(idx: u64, v: &VideoLine) -> (r: String)
    ensures
        r@ == spec_video_item(idx as nat, vline(*v)),
{
    let mut s = "{\"index\":".to_owned();
    let d = u64_to_dec(idx);
    s.append(d.as_str());
    s.append(",\"codec_type\":\"video\",\"codec_name\":");
    append_jstr(&mut s, v.codec.as_str());
    s.append(",\"width\":");
    let dw = u64_to_dec(v.width as u64);
    s.append(dw.as_str());
    s.append(",\"height\":");
    let dh = u64_to_dec(v.height as u64);
    s.append(dh.as_str());
    s.append(",\"r_frame_rate\":\"0/0\",\"avg_frame_rate\":\"0/0\",\"pix_fmt\":null,\"tags\":{}}");
    proof {
        assert(s@ =~= spec_video_item(idx as nat, vline(*v)));
    }
    s
}

fn audio_item(idx: u64, a: &AudioLine) -> (r: String)
    ensures
        r@ == spec_audio_item(idx as nat, aline(*a)),
{
    let mut s = "{\"index\":".to_owned();
    let d = u64_to_dec(idx);
    s.append(d.as_str());
    s.append(",\"codec_type\":\"audio\",\"codec_name\":");
    append_jstr(&mut s, a.codec.as_str());
    s.append(",\"sample_rate\":\"");
    let dr = u64_to_dec(a.rate as u64);
    s.append(dr.as_str());
    s.append("\",\"channels\":");
    let dc = u64_to_dec(a.channels as u64);
    s.append(dc.as_str());
    s.append(",\"channel_layout\":null,\"tags\":{}}");
    proof {
        assert(s@ =~= spec_audio_item(idx as nat, aline(*a)));
    }
    s
}

fn append_stream_items(out: &mut String, videos: &Vec<VideoLine>, audios: &Vec<AudioLine>)
    requires
        videos@.len() + audios@.len() <= u64::MAX,
    ensures
        final(out)@ == old(out)@ + join_items(
            stream_items(
                videos@.map_values(|v: VideoLine| vline(v)),
                audios@.map_values(|a: AudioLine| aline(a)),
            ),
        ),
{
    let ghost vs = videos@.map_values(|v: VideoLine| vline(v));
    let ghost aus = audios@.map_values(|a: AudioLine| aline(a));
    let ghost items = stream_items(vs, aus);
    let vlen = videos.len();
    let alen = audios.len();
    let mut k: usize = 0;
    while k < vlen
        invariant
            0 <= k <= vlen,
            vlen == videos@.len(),
            alen == audios@.len(),
            vlen + alen <= u64::MAX,
            vs == videos@.map_values(|v: VideoLine| vline(v)),
            aus == audios@.map_values(|a: AudioLine| aline(a)),
            items == stream_items(vs, aus),
            items.len() == vlen + alen,
            out@ == old(out)@ + join_items(items.subrange(0, k as int)),
        decreases vlen - k,
    {
        proof {
            let pre = items.subrange(0, k as int);
            let cur = items.subrange(0, k + 1 as int);
            assert(cur.drop_last() =~= pre);
            assert(items[k as int] == spec_video_item(k as nat, vs[k as int]));
        }
        if k > 0 {
            out.append(",");
            proof {
                reveal_strlit(",");
            }
        }
        let it = video_item(k as u64, &videos[k]);
        out.append(it.as_str());
        proof {
            assert(out@ =~= old(out)@ + join_items(items.subrange(0, k + 1 as int)));
        }
        k = k + 1;
    }
    let mut j: usize = 0;
    while j < alen
        invariant
            0 <= j <= alen,
            vlen == videos@.len(),
            alen == audios@.len(),
            vlen + alen <= u64::MAX,
            vs == videos@.map_values(|v: VideoLine| vline(v)),
            aus == audios@.map_values(|a: AudioLine| aline(a)),
            items == stream_items(vs, aus),
            items.len() == vlen + alen,
            out@ == old(out)@ + join_items(items.subrange(0, vlen + j as int)),
        decreases alen - j,
    {
        proof {
            let pre = items.subrange(0, vlen + j as int);
            let cur = items.subrange(0, vlen + j + 1 as int);
            assert(cur.drop_last() =~= pre);
            assert(items[vlen + j as int] == spec_audio_item(
                (vlen + j) as nat,
                aus[j as int],
            ));
        }
        if vlen > 0 || j > 0 {
            out.append(",");
            proof {
                reveal_strlit(",");
            }
        }
        let it = audio_item((vlen as u64) + (j as u64), &audios[j]);
        out.append(it.as_str());
        proof {
            assert(out@ =~= old(out)@ + join_items(items.subrange(0, vlen + j + 1 as int)));
        }
        j = j + 1;
    }
    proof {
        assert(items.subrange(0, (vlen + alen) as int) =~= items);
    }
}

/// Renders the whole probe document for one input, exactly as
/// [`spec_ffprobe_json`] states it.
pub fn ffprobe_json(input: &str, s: &DiscoverSummary) -> (r: String)
    requires
        s.videos@.len() + s.audios@.len() <= u64::MAX,
    ensures
        r@ == spec_ffprobe_json(input@, image_of(*s)),
{
    let mut out = "{\"streams\":[".to_owned();
    append_stream_items(&mut out, &s.videos, &s.audios);
    out.append("],\"format\":{\"filename\":");
    append_jstr(&mut out, input);
    out.append(",\"nb_streams\":");
    let count: u64 = (s.videos.len() as u64) + (s.audios.len() as u64);
    let dcount = u64_to_dec(count);
    out.append(dcount.as_str());
    out.append(",\"format_name\":");
    match &s.container {
        Some(c) => append_jstr(&mut out, c.as_str()),
        None => append_jstr(&mut out, "unknown"),
    }
    out.append(",\"duration\":\"");
    let ms: u64 = match s.duration_ms {
        Some(m) => m,
        None => 0,
    };
    let dsec = u64_to_dec(ms / 1000);
    out.append(dsec.as_str());
    out.append(".");
    proof {
        reveal_strlit(".");
    }
    let dfrac = u64_to_dec_pad3(ms % 1000);
    out.append(dfrac.as_str());
    out.append("\",\"size\":null,\"bit_rate\":null,\"tags\":{}}}");
    proof {
        assert(out@ =~= spec_ffprobe_json(input@, image_of(*s)));
    }
    out
}

} // verus!
