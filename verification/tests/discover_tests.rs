use mmx_core::discover::{ffprobe_json, scan_discoverer, DiscoverSummary};

const SAMPLE: &str = "Analyzing file:///tmp/in.mp4\n\
  Duration: 0:00:30.500000000\n\
  container: Quicktime\n\
  video: H.264 (High Profile) codec=H264, bitrate=900000 width=1280, height=720\n\
  audio: MPEG-4 AAC codec=aac, rate=48000, channels=2\n";

#[test]
fn reads_duration_container_and_streams() {
    let s = scan_discoverer(SAMPLE);
    assert_eq!(s.duration_ms, Some(30_500));
    assert_eq!(s.container.as_deref(), Some("Quicktime"));
    assert_eq!(s.videos.len(), 1);
    assert_eq!(s.videos[0].codec, "h264");
    assert_eq!((s.videos[0].width, s.videos[0].height), (1280, 720));
    assert_eq!(s.audios.len(), 1);
    assert_eq!(s.audios[0].codec, "aac");
    assert_eq!((s.audios[0].rate, s.audios[0].channels), (48_000, 2));
}

#[test]
fn first_duration_wins_and_last_container_wins() {
    let text = "Duration: 0:00:10.0\ncontainer: a\nDuration: 0:00:20.0\ncontainer: b\n";
    let s = scan_discoverer(text);
    assert_eq!(s.duration_ms, Some(10_000));
    assert_eq!(s.container.as_deref(), Some("b"));
}

#[test]
fn lines_without_markers_contribute_nothing() {
    let s = scan_discoverer("hello\nworld\n");
    assert!(s.duration_ms.is_none());
    assert!(s.container.is_none());
    assert!(s.videos.is_empty() && s.audios.is_empty());
}

#[test]
fn malformed_stream_lines_are_ignored() {
    let s = scan_discoverer("video: codec=h264 width=abc, height=2\naudio: codec=, rate=1, channels=2\n");
    assert!(s.videos.is_empty());
    assert!(s.audios.is_empty());
}

#[test]
fn empty_report_renders_a_minimal_document() {
    let s = DiscoverSummary { duration_ms: None, container: None, videos: Vec::new(), audios: Vec::new() };
    assert_eq!(
        ffprobe_json("in.mp4", &s),
        "{\"streams\":[],\"format\":{\"filename\":\"in.mp4\",\"nb_streams\":0,\
         \"format_name\":\"unknown\",\"duration\":\"0.000\",\"size\":null,\
         \"bit_rate\":null,\"tags\":{}}}"
    );
}

#[test]
fn full_report_renders_indexed_streams() {
    let s = scan_discoverer(SAMPLE);
    let doc = ffprobe_json("/tmp/in.mp4", &s);
    assert!(doc.starts_with("{\"streams\":[{\"index\":0,\"codec_type\":\"video\",\"codec_name\":\"h264\",\"width\":1280,\"height\":720,"));
    assert!(doc.contains("{\"index\":1,\"codec_type\":\"audio\",\"codec_name\":\"aac\",\"sample_rate\":\"48000\",\"channels\":2,"));
    assert!(doc.contains("\"nb_streams\":2"));
    assert!(doc.contains("\"format_name\":\"Quicktime\""));
    assert!(doc.contains("\"duration\":\"30.500\""));
}

#[test]
fn filenames_are_escaped_in_the_document() {
    let s = DiscoverSummary { duration_ms: None, container: None, videos: Vec::new(), audios: Vec::new() };
    let doc = ffprobe_json("we\"ird\\name", &s);
    assert!(doc.contains("\"filename\":\"we\\\"ird\\\\name\""));
}
