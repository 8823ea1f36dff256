use mmx_core::backend::{mock_run, probe, qc, run, select_backend, Backend, MockBackend,
    QcOptions, RunOptions};
use mmx_core::doctor::run_inspect;
use mmx_core::envcheck::doctor_report;
use mmx_core::gstpipe::build_pipeline_string;
use mmx_core::probe::cheap_probe;

fn opts(backend: &str) -> RunOptions {
    RunOptions {
        backend: backend.to_string(),
        input: "in.mp4".to_string(),
        output: "out.mp4".to_string(),
        cfr: false,
        fps: None,
        execute: false,
        progress_json: false,
        manifest: None,
        hardware: None,
    }
}

#[test]
fn selection_ignores_the_name_and_reports_the_missing_runtime() {
    for name in ["gst", "mock", "", "anything"] {
        let err = select_backend(name).unwrap_err();
        assert!(err.message.contains("gst backend not built"));
    }
}

#[test]
fn run_reports_the_missing_runtime_for_every_name() {
    assert!(run(&opts("gst")).is_err());
    assert!(run(&opts("mock")).is_err());
    assert!(run(&opts("")).is_err());
}

#[test]
fn the_mock_backend_is_called_directly() {
    assert!(mock_run(&opts("mock")).is_ok());
    let b = MockBackend;
    assert_eq!(b.name(), "mock");
    assert!(b.run(&opts("mock")).is_ok());
    let p = b.probe("in.mkv").unwrap();
    assert_eq!(p.path, "in.mkv");
    let q = b.qc(&QcOptions {
        ref_path: "a".to_string(),
        dist_path: "b".to_string(),
        vmaf_model: None,
    }).unwrap();
    assert_eq!(q.details, "mock qc");
}

#[test]
fn default_probe_and_qc_need_the_real_backend() {
    assert!(probe("whatever.mp4").is_err());
    let q = QcOptions {
        ref_path: "a".to_string(),
        dist_path: "b".to_string(),
        vmaf_model: None,
    };
    assert!(qc(&q).is_err());
}

#[test]
fn cheap_probe_records_path_and_size() {
    let r = cheap_probe("media/in.mkv", Some(1234));
    assert_eq!(r.schema_version, 1);
    assert_eq!(r.path, "media/in.mkv");
    assert_eq!(r.format.size, Some(1234));
    assert!(r.format.container.is_none() && r.format.duration_ns.is_none());
    assert!(r.streams.is_empty() && r.chapters.is_empty());
}

#[test]
fn inspection_is_healthy_by_construction() {
    let d = run_inspect();
    assert!(d.ok);
    assert!(d.hints.is_empty());
}

#[test]
fn environment_report_earns_one_hint_per_missing_piece() {
    let all_bad = doctor_report(None, None, false, false, None);
    assert_eq!(all_bad.hints.len(), 3);
    assert!(all_bad.hints[0].contains("GST plugin scanner"));
    assert!(all_bad.hints[1].contains("GI_TYPELIB_PATH"));
    assert!(all_bad.hints[2].contains("PKG_CONFIG_PATH"));

    let all_good = doctor_report(
        Some("1.24.0".to_string()),
        Some("/usr/libexec/gst-plugin-scanner".to_string()),
        true,
        true,
        None,
    );
    assert!(all_good.hints.is_empty());
    assert_eq!(all_good.gst_version.as_deref(), Some("1.24.0"));
}

#[test]
fn pipeline_string_defaults_to_software_encoding() {
    let p = build_pipeline_string(&opts("gst"));
    assert_eq!(
        p,
        "filesrc location=in.mp4 ! decodebin ! x264enc tune=zerolatency ! mp4mux ! filesink location=out.mp4"
    );
}

#[test]
fn pipeline_string_honors_frame_rate_and_hardware() {
    let mut o = opts("gst");
    o.fps = Some(24);
    o.hardware = Some("nvenc".to_string());
    let p = build_pipeline_string(&o);
    assert_eq!(
        p,
        "filesrc location=in.mp4 ! decodebin ! videorate ! video/x-raw,framerate=24/1 ! nvh264enc ! mp4mux ! filesink location=out.mp4"
    );
}

#[test]
fn pipeline_string_escapes_awkward_paths() {
    let mut o = opts("gst");
    o.input = "my file.mp4".to_string();
    let p = build_pipeline_string(&o);
    assert!(p.starts_with("filesrc location='my file.mp4' ! decodebin"));
}

#[test]
fn cfr_without_fps_uses_thirty() {
    let mut o = opts("gst");
    o.cfr = true;
    let p = build_pipeline_string(&o);
    assert!(p.contains("videorate ! video/x-raw,framerate=30/1"));
}

#[test]
fn hardware_hints_select_their_encoders() {
    for (hint, enc) in [
        ("vt", "vtenc_h264"),
        ("qsv", "qsvh264enc"),
        ("vaapi", "vaapih264enc"),
        ("weird", "x264enc tune=zerolatency"),
    ] {
        let mut o = opts("gst");
        o.hardware = Some(hint.to_string());
        assert!(build_pipeline_string(&o).contains(enc));
    }
}
