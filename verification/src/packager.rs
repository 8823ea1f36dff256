//! Segmented-delivery packaging: builds the exact encoder invocations for
//! HLS and DASH output. The caller creates the output directory and runs
//! the external encoder with the returned arguments.

use vstd::prelude::*;
use crate::strutil::dec_str;
use crate::strutil::u64_to_dec;

verus! {

/// The two packaging formats.
#[derive(Debug, Clone, Copy, PartialEq, Eq, Structural)]
pub enum PackKind {
    Hls,
    Dash,
}

/// A path inside the output directory.
pub open spec fn spec_join(dir: Seq<char>, file: Seq<char>) -> Seq<char> {
    if dir.len() == 0 {
        file
    } else if dir[dir.len() - 1] == '/' {
        dir + file
    } else {
        dir + "/"@ + file
    }
}

/// The three-rung scaling filter both packagings share.
pub open spec fn spec_filter() -> Seq<char> {
    "[v:0]split=3[v1][v2][v3];[v1]scale=w=640:h=360:flags=bicubic[v1out];[v2]scale=w=1280:h=720:flags=bicubic[v2out];[v3]scale=w=1920:h=1080:flags=bicubic[v3out]"@
}

/// The encoder arguments for HLS packaging.
pub open spec fn spec_hls_args(input: Seq<char>, out_dir: Seq<char>, segment_seconds: u32) -> Seq<
    Seq<char>,
> {
    seq![
        "-y"@,
        "-i"@,
        input,
        "-filter_complex"@,
        spec_filter(),
        "-map"@,
        "[v1out]"@,
        "-c:v:0"@,
        "libx264"@,
        "-b:v:0"@,
        "500k"@,
        "-map"@,
        "[v2out]"@,
        "-c:v:1"@,
        "libx264"@,
        "-b:v:1"@,
        "1500k"@,
        "-map"@,
        "[v3out]"@,
        "-c:v:2"@,
        "libx264"@,
        "-b:v:2"@,
        "3000k"@,
        "-f"@,
        "hls"@,
        "-hls_time"@,
        dec_str(segment_seconds as nat),
        "-hls_playlist_type"@,
        "vod"@,
        "-master_pl_name"@,
        "master.m3u8"@,
        "-hls_segment_filename"@,
        spec_join(out_dir, "v%v_seg%d.ts"@),
        "-var_stream_map"@,
        "v:0,name:360p v:1,name:720p v:2,name:1080p"@,
        spec_join(out_dir, "v%v.m3u8"@),
    ]
}

/// The encoder arguments for DASH packaging.
pub open spec fn spec_dash_args(input: Seq<char>, out_dir: Seq<char>, segment_seconds: u32) -> Seq<
    Seq<char>,
> {
    seq![
        "-y"@,
        "-i"@,
        input,
        "-filter_complex"@,
        spec_filter(),
        "-map"@,
        "[v1out]"@,
        "-c:v:0"@,
        "libx264"@,
        "-b:v:0"@,
        "500k"@,
        "-map"@,
        "[v2out]"@,
        "-c:v:1"@,
        "libx264"@,
        "-b:v:1"@,
        "1500k"@,
        "-map"@,
        "[v3out]"@,
        "-c:v:2"@,
        "libx264"@,
        "-b:v:2"@,
        "3000k"@,
        "-f"@,
        "dash"@,
        "-seg_duration"@,
        dec_str(segment_seconds as nat),
        "-use_template"@,
        "1"@,
        "-use_timeline"@,
        "1"@,
        "-init_seg_name"@,
        "init_$RepresentationID$.m4s"@,
        "-media_seg_name"@,
        "chunk_$RepresentationID$_$Number$.m4s"@,
        spec_join(out_dir, "stream.mpd"@),
    ]
}

/// Joins a file name onto the output directory.
fn join_path(dir: &str, file: &str) -> (r: String)
    ensures
        r@ == spec_join(dir@, file@),
{
    let n = dir.unicode_len();
    if n == 0 {
        return file.to_owned();
    }
    let mut s = dir.to_owned();
    if dir.get_char(n - 1) != '/' {
        s.append("/");
    }
    s.append(file);
    s
}

/// The exact argument list for HLS packaging of `input` into `out_dir`
/// with the given segment length.
pub fn pack_hls_args(input: &str, out_dir: &str, segment_seconds: u32) -> (r: Vec<String>)
    ensures
        r.deep_view() == spec_hls_args(input@, out_dir@, segment_seconds),
{
    let mut v: Vec<String> = Vec::new();
    v.push("-y".to_owned());
    v.push("-i".to_owned());
    v.push(input.to_owned());
    v.push("-filter_complex".to_owned());
    v.push(
        "[v:0]split=3[v1][v2][v3];[v1]scale=w=640:h=360:flags=bicubic[v1out];[v2]scale=w=1280:h=720:flags=bicubic[v2out];[v3]scale=w=1920:h=1080:flags=bicubic[v3out]".to_owned(),
    );
    v.push("-map".to_owned());
    v.push("[v1out]".to_owned());
    v.push("-c:v:0".to_owned());
    v.push("libx264".to_owned());
    v.push("-b:v:0".to_owned());
    v.push("500k".to_owned());
    v.push("-map".to_owned());
    v.push("[v2out]".to_owned());
    v.push("-c:v:1".to_owned());
    v.push("libx264".to_owned());
    v.push("-b:v:1".to_owned());
    v.push("1500k".to_owned());
    v.push("-map".to_owned());
    v.push("[v3out]".to_owned());
    v.push("-c:v:2".to_owned());
    v.push("libx264".to_owned());
    v.push("-b:v:2".to_owned());
    v.push("3000k".to_owned());
    v.push("-f".to_owned());
    v.push("hls".to_owned());
    v.push("-hls_time".to_owned());
    v.push(u64_to_dec(segment_seconds as u64));
    v.push("-hls_playlist_type".to_owned());
    v.push("vod".to_owned());
    v.push("-master_pl_name".to_owned());
    v.push("master.m3u8".to_owned());
    v.push("-hls_segment_filename".to_owned());
    v.push(join_path(out_dir, "v%v_seg%d.ts"));
    v.push("-var_stream_map".to_owned());
    v.push("v:0,name:360p v:1,name:720p v:2,name:1080p".to_owned());
    v.push(join_path(out_dir, "v%v.m3u8"));
    proof {
        assert(v.deep_view() =~= spec_hls_args(input@, out_dir@, segment_seconds));
    }
    v
}

/// The exact argument list for DASH packaging of `input` into `out_dir`
/// with the given segment length.
pub fn pack_dash_args(input: &str, out_dir: &str, segment_seconds: u32) -> (r: Vec<String>)
    ensures
        r.deep_view() == spec_dash_args(input@, out_dir@, segment_seconds),
{
    let mut v: Vec<String> = Vec::new();
    v.push("-y".to_owned());
    v.push("-i".to_owned());
    v.push(input.to_owned());
    v.push("-filter_complex".to_owned());
    v.push(
        "[v:0]split=3[v1][v2][v3];[v1]scale=w=640:h=360:flags=bicubic[v1out];[v2]scale=w=1280:h=720:flags=bicubic[v2out];[v3]scale=w=1920:h=1080:flags=bicubic[v3out]".to_owned(),
    );
    v.push("-map".to_owned());
    v.push("[v1out]".to_owned());
    v.push("-c:v:0".to_owned());
    v.push("libx264".to_owned());
    v.push("-b:v:0".to_owned());
    v.push("500k".to_owned());
    v.push("-map".to_owned());
    v.push("[v2out]".to_owned());
    v.push("-c:v:1".to_owned());
    v.push("libx264".to_owned());
    v.push("-b:v:1".to_owned());
    v.push("1500k".to_owned());
    v.push("-map".to_owned());
    v.push("[v3out]".to_owned());
    v.push("-c:v:2".to_owned());
    v.push("libx264".to_owned());
    v.push("-b:v:2".to_owned());
    v.push("3000k".to_owned());
    v.push("-f".to_owned());
    v.push("dash".to_owned());
    v.push("-seg_duration".to_owned());
    v.push(u64_to_dec(segment_seconds as u64));
    v.push("-use_template".to_owned());
    v.push("1".to_owned());
    v.push("-use_timeline".to_owned());
    v.push("1".to_owned());
    v.push("-init_seg_name".to_owned());
    v.push("init_$RepresentationID$.m4s".to_owned());
    v.push("-media_seg_name".to_owned());
    v.push("chunk_$RepresentationID$_$Number$.m4s".to_owned());
    v.push(join_path(out_dir, "stream.mpd"));
    proof {
        assert(v.deep_view() =~= spec_dash_args(input@, out_dir@, segment_seconds));
    }
    v
}

/// The argument list for whichever packaging was asked for.
pub fn pack_unified_args(kind: PackKind, input: &str, out_dir: &str, segment_seconds: u32) -> (r:
    Vec<String>)
    ensures
        kind == PackKind::Hls ==> r.deep_view() == spec_hls_args(input@, out_dir@, segment_seconds),
        kind == PackKind::Dash ==> r.deep_view() == spec_dash_args(
            input@,
            out_dir@,
            segment_seconds,
        ),
{
    match kind {
        PackKind::Hls => pack_hls_args(input, out_dir, segment_seconds),
        PackKind::Dash => pack_dash_args(input, out_dir, segment_seconds),
    }
}

} // verus!
