use mmx_core::compat::{build_remux_pipeline, build_trim_pipeline, parse_ffmpeg_args,
    parse_timestamp_ms, trim_window_ms};
use mmx_core::shell_escape::{escape, shq};

fn args(a: &[&str]) -> Vec<String> {
    a.iter().map(|s| s.to_string()).collect()
}

#[test]
fn recognizes_the_copy_remux_flags() {
    let o = parse_ffmpeg_args(&args(&[
        "-y", "-i", "in.mp4", "-c:v", "copy", "-c:a", "copy", "-movflags", "+faststart",
        "out.mp4",
    ]));
    assert_eq!(o.input.as_deref(), Some("in.mp4"));
    assert_eq!(o.output.as_deref(), Some("out.mp4"));
    assert!(o.copy_video);
    assert!(o.copy_audio);
    assert!(o.faststart);
    assert!(o.ss.is_none() && o.t.is_none() && o.to_.is_none());
}

#[test]
fn recognizes_trim_flags_and_maps() {
    let o = parse_ffmpeg_args(&args(&[
        "-i", "a.mov", "-ss", "10", "-t", "5.5", "-map", "0:v", "-map", "0:a", "b.mp4",
    ]));
    assert_eq!(o.ss.as_deref(), Some("10"));
    assert_eq!(o.t.as_deref(), Some("5.5"));
    assert_eq!(o.maps, vec!["0:v".to_string(), "0:a".to_string()]);
    assert_eq!(o.output.as_deref(), Some("b.mp4"));
}

#[test]
fn unknown_flags_skip_their_value() {
    let o = parse_ffmpeg_args(&args(&["-i", "x", "-preset", "fast", "out.mkv"]));
    assert_eq!(o.output.as_deref(), Some("out.mkv"));
    // a value-less flag before a bare word swallows that word
    let o2 = parse_ffmpeg_args(&args(&["-i", "x", "-an", "-sn", "out.mkv"]));
    assert_eq!(o2.output, None);
    let o3 = parse_ffmpeg_args(&args(&["-i", "x", "-an", "-sn", "-y", "out.mkv"]));
    assert_eq!(o3.output.as_deref(), Some("out.mkv"));
}

#[test]
fn non_copy_codecs_do_not_count_as_copy() {
    let o = parse_ffmpeg_args(&args(&["-c:v", "libx264", "-c:a", "copy"]));
    assert!(!o.copy_video);
    assert!(o.copy_audio);
}

#[test]
fn timestamps_in_seconds_and_clock_form() {
    assert_eq!(parse_timestamp_ms("90"), 90_000);
    assert_eq!(parse_timestamp_ms("1:30"), 90_000);
    assert_eq!(parse_timestamp_ms("01:02:03.5"), 3_723_500);
    assert_eq!(parse_timestamp_ms("0:00:30.250"), 30_250);
    assert_eq!(parse_timestamp_ms("12.345678"), 12_345);
    assert_eq!(parse_timestamp_ms("abc"), 0);
    assert_eq!(parse_timestamp_ms(""), 0);
}

#[test]
fn trim_window_adds_duration_to_start() {
    let o = parse_ffmpeg_args(&args(&["-ss", "10", "-t", "5"]));
    assert_eq!(trim_window_ms(&o), (10_000, 15_000));
    let o2 = parse_ffmpeg_args(&args(&["-ss", "10", "-to", "42"]));
    assert_eq!(trim_window_ms(&o2), (10_000, 42_000));
    let o3 = parse_ffmpeg_args(&args(&["-i", "x"]));
    assert_eq!(trim_window_ms(&o3), (0, 0));
}

#[test]
fn remux_pipeline_text() {
    let p = build_remux_pipeline("in.mp4", "out.mp4", true);
    assert_eq!(
        p,
        "filesrc location='in.mp4' ! qtdemux name=d d.video_0 ! queue ! identity ! \
         qtmux faststart=true name=mux ! filesink location='out.mp4' \
         d.audio_0 ! queue ! identity ! mux."
    );
}

#[test]
fn trim_pipeline_offsets_both_streams() {
    let p = build_trim_pipeline("a.mp4", "b.mp4", false, 1500);
    let offset = "identity timestamp-offset=-1500000000 ! ";
    assert_eq!(p.matches(offset).count(), 2);
    assert!(p.contains("d.video_0 ! queue ! videorate ! identity timestamp-offset=-1500000000 ! "));
    assert!(p.contains("d.audio_0 ! queue ! identity timestamp-offset=-1500000000 ! "));
}

#[test]
fn untrimmed_pipeline_has_no_offset_stage() {
    let p = build_trim_pipeline("a.mp4", "b.mp4", false, 0);
    assert!(!p.contains("timestamp-offset"));
    assert!(!p.contains("videorate"));
}

#[test]
fn escape_passes_safe_words_through() {
    assert_eq!(escape("plain/path-1.mp4"), "plain/path-1.mp4");
    assert_eq!(escape("user@host:file%20"), "user@host:file%20");
}

#[test]
fn escape_quotes_what_needs_it() {
    assert_eq!(escape(""), "''");
    assert_eq!(escape("a b"), "'a b'");
    assert_eq!(escape("it's"), "'it'\"'\"'s'");
}

#[test]
fn shq_always_quotes() {
    assert_eq!(shq("x"), "'x'");
    assert_eq!(shq("a'b"), "'a'\"'\"'b'");
}
