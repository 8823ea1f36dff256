use mmx_core::muxer::{muxer_element_name, muxer_for_path, select_muxer, MuxerKind};

#[test]
fn matroska_extensions() {
    assert_eq!(select_muxer("mkv"), MuxerKind::Matroska);
    assert_eq!(select_muxer("matroska"), MuxerKind::Matroska);
}

#[test]
fn webm_extension() {
    assert_eq!(select_muxer("webm"), MuxerKind::WebM);
}

#[test]
fn mp4_family_extensions() {
    assert_eq!(select_muxer("mp4"), MuxerKind::Mp4Family);
    assert_eq!(select_muxer("m4v"), MuxerKind::Mp4Family);
    assert_eq!(select_muxer("m4a"), MuxerKind::Mp4Family);
    assert_eq!(select_muxer("mov"), MuxerKind::Mp4Family);
}

#[test]
fn selection_is_case_insensitive() {
    assert_eq!(select_muxer("MKV"), MuxerKind::Matroska);
    assert_eq!(select_muxer("WebM"), MuxerKind::WebM);
    assert_eq!(select_muxer("MoV"), MuxerKind::Mp4Family);
}

#[test]
fn unknown_extensions_fall_back_to_matroska() {
    assert_eq!(select_muxer("avi"), MuxerKind::Matroska);
    assert_eq!(select_muxer(""), MuxerKind::Matroska);
    assert_eq!(select_muxer("mp5"), MuxerKind::Matroska);
}

#[test]
fn scenario_webm_output_path() {
    assert_eq!(muxer_for_path("movie.webm"), MuxerKind::WebM);
}

#[test]
fn paths_without_usable_extension_fall_back() {
    assert_eq!(muxer_for_path("movie"), MuxerKind::Matroska);
    assert_eq!(muxer_for_path(".hidden"), MuxerKind::Matroska);
    assert_eq!(muxer_for_path("dir.d/file"), MuxerKind::Matroska);
    assert_eq!(muxer_for_path("out/clip.mp4"), MuxerKind::Mp4Family);
}

#[test]
fn muxer_element_names() {
    assert_eq!(muxer_element_name(MuxerKind::Matroska), "matroskamux");
    assert_eq!(muxer_element_name(MuxerKind::WebM), "webmmux");
    assert_eq!(muxer_element_name(MuxerKind::Mp4Family), "mp4mux");
}

#[test]
fn only_the_last_extension_counts() {
    assert_eq!(muxer_for_path("a.tar.MKV"), MuxerKind::Matroska);
    assert_eq!(muxer_for_path("x.mp4.webm"), MuxerKind::WebM);
}
