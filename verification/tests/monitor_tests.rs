use mmx_core::monitor::{emission_line, BusEvent, Directive, EmitKind, JobError, Monitor,
    RunState, WakeInput};

fn wake(now_ms: u64, position_ns: Option<u64>, duration_ns: Option<u64>) -> WakeInput {
    WakeInput { now_ms, position_ns, duration_ns, cancel_requested: false }
}

fn playing_monitor() -> Monitor {
    let mut m = Monitor::new(true);
    m.note_first_track();
    let out = m.on_wake(Some(BusEvent::Running), wake(0, None, None));
    assert_eq!(out.directive, Directive::Continue);
    assert_eq!(m.state, RunState::Playing);
    m
}

#[test]
fn start_event_is_emitted_once() {
    let mut m = Monitor::new(true);
    let first = m.begin();
    assert!(first.is_some());
    assert_eq!(first.unwrap().kind, EmitKind::Start);
    assert!(m.begin().is_none());
    assert!(m.begin().is_none());
}

#[test]
fn start_line_text() {
    let mut m = Monitor::new(true);
    let e = m.begin().unwrap();
    assert_eq!(emission_line(&e), "{\"event\":\"start\"}");
}

#[test]
fn progress_line_with_known_duration() {
    let mut m = playing_monitor();
    let out = m.on_wake(None, wake(250, Some(500), Some(1000)));
    let e = out.emission.expect("progress due");
    assert_eq!(e.kind, EmitKind::Progress);
    assert_eq!(
        emission_line(&e),
        "{\"event\":\"progress\",\"position_ns\":500,\"duration_ns\":1000,\"pct\":50.00}"
    );
}

#[test]
fn progress_line_with_unknown_duration() {
    let mut m = playing_monitor();
    let out = m.on_wake(None, wake(250, Some(500), None));
    let e = out.emission.expect("progress due");
    assert_eq!(
        emission_line(&e),
        "{\"event\":\"progress\",\"position_ns\":500,\"duration_ns\":null,\"pct\":null}"
    );
}

#[test]
fn no_emission_before_interval_elapses() {
    let mut m = playing_monitor();
    let out = m.on_wake(None, wake(100, Some(500), Some(1000)));
    assert!(out.emission.is_none());
}

#[test]
fn percent_is_clamped_to_one_hundred() {
    let mut m = playing_monitor();
    let out = m.on_wake(None, wake(250, Some(1500), Some(1000)));
    let e = out.emission.unwrap();
    assert_eq!(e.snap.pct_centi, Some(10000));
}

#[test]
fn percent_never_decreases_within_a_run() {
    let mut m = playing_monitor();
    let first = m.on_wake(None, wake(250, Some(800), Some(1000))).emission.unwrap();
    assert_eq!(first.snap.pct_centi, Some(8000));
    // the backend reports a position regression; the percentage holds
    let second = m.on_wake(None, wake(500, Some(300), Some(1000))).emission.unwrap();
    assert_eq!(second.snap.pct_centi, Some(8000));
    let third = m.on_wake(None, wake(750, Some(900), Some(1000))).emission.unwrap();
    assert_eq!(third.snap.pct_centi, Some(9000));
}

#[test]
fn end_of_stream_completes_with_full_percent() {
    let mut m = playing_monitor();
    let out = m.on_wake(Some(BusEvent::Eos), wake(400, Some(900), Some(1000)));
    assert_eq!(out.directive, Directive::BeginDrain);
    let e = out.emission.expect("end event");
    assert_eq!(e.kind, EmitKind::End);
    assert_eq!(
        emission_line(&e),
        "{\"event\":\"end\",\"position_ns\":1000,\"duration_ns\":1000,\"pct\":100.00}"
    );
    assert_eq!(m.state, RunState::Draining);
    m.complete();
    assert_eq!(m.state, RunState::Completed);
}

#[test]
fn scenario_double_end_of_stream_emits_one_end_line() {
    let mut m = playing_monitor();
    let mut end_lines = 0;
    for _ in 0..2 {
        let out = m.on_wake(Some(BusEvent::Eos), wake(400, None, Some(1000)));
        if let Some(e) = out.emission {
            let line = emission_line(&e);
            if line.starts_with("{\"event\":\"end\"") {
                end_lines += 1;
            }
        }
    }
    assert_eq!(end_lines, 1);
}

#[test]
fn nothing_is_emitted_after_completion() {
    let mut m = playing_monitor();
    let _ = m.on_wake(Some(BusEvent::Eos), wake(400, None, Some(1000)));
    let later = m.on_wake(None, wake(5000, Some(999), Some(1000)));
    assert!(later.emission.is_none());
    assert_eq!(later.directive, Directive::Continue);
}

#[test]
fn bus_error_fails_the_job() {
    let mut m = playing_monitor();
    let err = JobError { message: "decode failed".to_string(), detail: Some("bad nal".to_string()) };
    let out = m.on_wake(Some(BusEvent::Error(err)), wake(300, None, None));
    assert_eq!(out.directive, Directive::Abort);
    assert!(out.emission.is_none());
    assert_eq!(m.state, RunState::Failed);
    let e = out.error.expect("error carried");
    assert_eq!(e.message, "decode failed");
    assert_eq!(e.detail.as_deref(), Some("bad nal"));
}

#[test]
fn cancellation_is_distinct_and_quiet() {
    let mut m = playing_monitor();
    let out = m.on_wake(
        None,
        WakeInput { now_ms: 900, position_ns: Some(1), duration_ns: Some(2), cancel_requested: true },
    );
    assert_eq!(out.directive, Directive::Cancel);
    assert!(out.emission.is_none());
    assert_eq!(m.state, RunState::Playing);
}

#[test]
fn disabled_progress_emits_nothing() {
    let mut m = Monitor::new(false);
    assert!(m.begin().is_none());
    m.note_first_track();
    let _ = m.on_wake(Some(BusEvent::Running), wake(0, None, None));
    let out = m.on_wake(None, wake(1000, Some(5), Some(10)));
    assert!(out.emission.is_none());
    let eos = m.on_wake(Some(BusEvent::Eos), wake(1200, None, None));
    assert!(eos.emission.is_none());
    assert_eq!(eos.directive, Directive::BeginDrain);
}

#[test]
fn zero_position_reports_zero_percent() {
    let mut m = playing_monitor();
    let e = m.on_wake(None, wake(250, Some(0), Some(1000))).emission.unwrap();
    assert_eq!(
        emission_line(&e),
        "{\"event\":\"progress\",\"position_ns\":0,\"duration_ns\":1000,\"pct\":0.00}"
    );
}

#[test]
fn fractional_percent_keeps_two_decimals() {
    let mut m = playing_monitor();
    let e = m.on_wake(None, wake(250, Some(333), Some(1000))).emission.unwrap();
    assert_eq!(
        emission_line(&e),
        "{\"event\":\"progress\",\"position_ns\":333,\"duration_ns\":1000,\"pct\":33.30}"
    );
}
