use mmx_core::graph::{AsmAction, FailReason, TrackState};
use mmx_core::job::Job;
use mmx_core::monitor::{BusEvent, Directive, EmitKind, RunState, WakeInput};
use mmx_core::route::{CapabilityDescriptor, ElementKind, PadTemplateId};

fn desc(family: &str, mpeg_version: Option<i32>) -> CapabilityDescriptor {
    CapabilityDescriptor { family: family.to_string(), mpeg_version }
}

#[test]
fn h264_track_assembles_and_links() {
    let mut job = Job::new(false);
    let (i, first) = job.on_track_discovered(desc("video/x-h264", None)).unwrap();
    assert_eq!(i, 0);
    assert_eq!(first, AsmAction::AddUnit { parser: Some(ElementKind::H264Parse) });
    assert_eq!(job.on_track_step(0, true), AsmAction::LinkSrcToQueue);
    assert_eq!(job.on_track_step(0, true), AsmAction::LinkQueueToParser);
    assert_eq!(job.on_track_step(0, true), AsmAction::RequestPad(PadTemplateId::VideoU));
    assert_eq!(job.on_track_step(0, true), AsmAction::LinkToMuxPad);
    assert_eq!(job.on_track_step(0, true), AsmAction::Done);
    assert_eq!(job.graph.tracks[0].state, TrackState::Linked);
    assert!(job.graph.tracks[0].unit_attached);
    assert_eq!(job.graph.tracks[0].pad, Some(0));
}

#[test]
fn passthrough_track_skips_the_parser_stage() {
    let mut job = Job::new(false);
    let (_, first) = job.on_track_discovered(desc("video/x-vp9", None)).unwrap();
    assert_eq!(first, AsmAction::AddUnit { parser: None });
    assert_eq!(job.on_track_step(0, true), AsmAction::LinkSrcToQueue);
    assert_eq!(job.on_track_step(0, true), AsmAction::RequestPad(PadTemplateId::VideoU));
    assert_eq!(job.on_track_step(0, true), AsmAction::LinkToMuxPad);
    assert_eq!(job.on_track_step(0, true), AsmAction::Done);
    assert_eq!(job.graph.tracks[0].state, TrackState::Linked);
}

#[test]
fn unroutable_track_is_failed_immediately() {
    let mut job = Job::new(false);
    let (i, first) = job.on_track_discovered(desc("application/x-custom", None)).unwrap();
    assert_eq!(first, AsmAction::Done);
    assert_eq!(job.graph.tracks[i].state, TrackState::Failed(FailReason::Unroutable));
    assert!(!job.graph.tracks[i].unit_attached);
}

#[test]
fn failed_instantiation_leaves_nothing_attached() {
    let mut job = Job::new(false);
    let _ = job.on_track_discovered(desc("audio/x-ac3", None)).unwrap();
    // the queue/parser unit could not be created
    assert_eq!(job.on_track_step(0, false), AsmAction::Done);
    assert_eq!(job.graph.tracks[0].state, TrackState::Failed(FailReason::LinkFailed));
    assert!(!job.graph.tracks[0].unit_attached);
}

#[test]
fn link_failure_rolls_the_unit_back() {
    let mut job = Job::new(false);
    let _ = job.on_track_discovered(desc("video/x-h264", None)).unwrap();
    assert_eq!(job.on_track_step(0, true), AsmAction::LinkSrcToQueue);
    // the source pad would not link
    assert_eq!(job.on_track_step(0, false), AsmAction::RollbackUnit);
    assert_eq!(job.on_track_step(0, true), AsmAction::Done);
    assert_eq!(job.graph.tracks[0].state, TrackState::Failed(FailReason::LinkFailed));
    assert!(!job.graph.tracks[0].unit_attached);
}

#[test]
fn refused_muxer_pad_keeps_the_unit() {
    let mut job = Job::new(false);
    let _ = job.on_track_discovered(desc("audio/x-opus", None)).unwrap();
    assert_eq!(job.on_track_step(0, true), AsmAction::LinkSrcToQueue);
    assert_eq!(job.on_track_step(0, true), AsmAction::LinkQueueToParser);
    assert_eq!(job.on_track_step(0, true), AsmAction::RequestPad(PadTemplateId::AudioU));
    // the muxer refused the pad
    assert_eq!(job.on_track_step(0, false), AsmAction::Done);
    assert_eq!(job.graph.tracks[0].state, TrackState::Failed(FailReason::MuxerPadRefused));
    assert!(job.graph.tracks[0].unit_attached);
    assert_eq!(job.graph.tracks[0].pad, None);
}

#[test]
fn tracks_get_distinct_muxer_pads() {
    let mut job = Job::new(false);
    for k in 0..2 {
        let (i, _) = job.on_track_discovered(desc("audio/x-ac3", None)).unwrap();
        assert_eq!(i, k);
        while job.on_track_step(i, true) != AsmAction::Done {}
    }
    let pad_a = job.graph.tracks[0].pad.unwrap();
    let pad_b = job.graph.tracks[1].pad.unwrap();
    assert_ne!(pad_a, pad_b);
}

#[test]
fn late_discovery_after_teardown_is_ignored() {
    let mut job = Job::new(false);
    job.teardown_graph();
    assert!(job.on_track_discovered(desc("video/x-h264", None)).is_none());
    assert_eq!(job.graph.tracks.len(), 0);
}

#[test]
fn scenario_unroutable_track_does_not_abort_the_job() {
    let mut job = Job::new(true);
    // one custom track that cannot be routed
    let (bad, first) = job.on_track_discovered(desc("application/x-custom", None)).unwrap();
    assert_eq!(first, AsmAction::Done);
    assert_eq!(job.graph.tracks[bad].state, TrackState::Failed(FailReason::Unroutable));
    // one video track that links fine
    let (good, _) = job.on_track_discovered(desc("video/x-h264", None)).unwrap();
    while job.on_track_step(good, true) != AsmAction::Done {}
    assert_eq!(job.graph.tracks[good].state, TrackState::Linked);
    let (linked, failed) = job.graph.summary();
    assert_eq!((linked, failed), (1, 1));
    // the run still completes
    job.monitor.note_first_track();
    let w = WakeInput { now_ms: 0, position_ns: None, duration_ns: None, cancel_requested: false };
    let _ = job.monitor.on_wake(Some(BusEvent::Running), w);
    let out = job.monitor.on_wake(
        Some(BusEvent::Eos),
        WakeInput { now_ms: 300, position_ns: None, duration_ns: Some(1000), cancel_requested: false },
    );
    assert_eq!(out.directive, Directive::BeginDrain);
    assert_eq!(out.emission.unwrap().kind, EmitKind::End);
    job.monitor.complete();
    assert_eq!(job.monitor.state, RunState::Completed);
}
