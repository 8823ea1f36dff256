use mmx_core::packager::{pack_dash_args, pack_hls_args, pack_unified_args, PackKind};
use mmx_core::remux::{checksum_line, packet_step, remux_container_for, RemuxContainer};

#[test]
fn hls_argument_list() {
    let a = pack_hls_args("in.mp4", "out", 4);
    assert_eq!(a.len(), 36);
    assert_eq!(a[0], "-y");
    assert_eq!(a[2], "in.mp4");
    assert_eq!(a[23], "-f");
    assert_eq!(a[24], "hls");
    assert_eq!(a[26], "4");
    assert_eq!(a[32], "out/v%v_seg%d.ts");
    assert_eq!(a[35], "out/v%v.m3u8");
}

#[test]
fn dash_argument_list() {
    let a = pack_dash_args("in.mp4", "seg/", 6);
    assert_eq!(a.len(), 36);
    assert_eq!(a[24], "dash");
    assert_eq!(a[25], "-seg_duration");
    assert_eq!(a[26], "6");
    // a directory already ending in a separator is joined without another
    assert_eq!(a[35], "seg/stream.mpd");
}

#[test]
fn unified_packaging_dispatches_by_kind() {
    let h = pack_unified_args(PackKind::Hls, "x", "d", 2);
    assert_eq!(h[24], "hls");
    let d = pack_unified_args(PackKind::Dash, "x", "d", 2);
    assert_eq!(d[24], "dash");
}

#[test]
fn native_remux_container_selection() {
    assert_eq!(remux_container_for("mkv"), Some(RemuxContainer::Mkv));
    assert_eq!(remux_container_for("webm"), Some(RemuxContainer::Mkv));
    assert_eq!(remux_container_for("MP4"), Some(RemuxContainer::Mp4));
    assert_eq!(remux_container_for("mov"), Some(RemuxContainer::Mp4));
    assert_eq!(remux_container_for("avi"), None);
    assert_eq!(remux_container_for(""), None);
}

#[test]
fn packet_decisions() {
    let skip = packet_step(10, true);
    assert!(!skip.write && !skip.tick);
    let plain = packet_step(0, false);
    assert!(plain.write && !plain.tick);
    let fiftieth = packet_step(49, false);
    assert!(fiftieth.write && fiftieth.tick);
    let hundredth = packet_step(99, false);
    assert!(hundredth.tick);
}

#[test]
fn checksum_line_matches_the_known_check_value() {
    // the CRC-32 (IEEE) check value for "123456789"
    assert_eq!(checksum_line(b"123456789"), "\u{1f512} CRC32: cbf43926");
}

#[test]
fn checksum_line_of_empty_input() {
    assert_eq!(checksum_line(b""), "\u{1f512} CRC32: 00000000");
}
