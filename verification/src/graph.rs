//! Pipeline graph assembler: reacts to each newly discovered track and
//! extends the live execution graph safely while the job may already be
//! running.
//!
//! The backend performs the real element work (creating a queue and parser,
//! linking pads, requesting muxer pads); this module owns every decision.
//! For each track the caller repeatedly performs the returned [`AsmAction`]
//! and reports its outcome through [`PipelineGraph::track_step`], which
//! advances a small per-track state machine:
//!
//! * element instantiation is atomic: either the whole queue/parser unit is
//!   attached, or nothing is;
//! * a link failure rolls the unit back, so no partial sub-chain remains;
//! * a refused muxer pad marks the track failed without rollback;
//! * no two tracks are ever linked to the same muxer pad;
//! * per-track failures are recorded on the track and never abort the job.
//!
//! A torn-down graph (`alive == false`) ignores late discovery events.

use vstd::prelude::*;
use crate::route::{classify, spec_classify, CapabilityDescriptor, ElementKind, PadTemplateId,
    RouteDecision};

verus! {

/// Why a single track failed to link. Per-track, never fatal to the job.
#[derive(Debug, Clone, Copy, PartialEq, Eq, Structural)]
pub enum FailReason {
    /// The capability had no routing rule.
    Unroutable,
    /// The muxer refused to grant a pad for the template.
    MuxerPadRefused,
    /// An element could not be created or a link could not be made.
    LinkFailed,
}

/// A track's lifecycle state; terminal states are retained for reporting.
#[derive(Debug, Clone, Copy, PartialEq, Eq, Structural)]
pub enum TrackState {
    Discovered,
    Linked,
    Failed(FailReason),
}

/// One assembly step the backend must perform for a track.
#[derive(Debug, Clone, Copy, PartialEq, Eq)]
pub enum AsmAction {
    /// Create the buffering queue and, if the route asks for one, the
    /// parser, and add both to the graph as one unit.
    AddUnit { parser: Option<ElementKind> },
    /// Link the track's source pad to the queue input.
    LinkSrcToQueue,
    /// Link the queue output to the parser input.
    LinkQueueToParser,
    /// Request a fresh pad from the muxer using this template.
    RequestPad(PadTemplateId),
    /// Link the upstream-most element's output to the granted muxer pad.
    LinkToMuxPad,
    /// Remove the elements added for this track (best effort).
    RollbackUnit,
    /// Nothing more to do for this track.
    Done,
}

/// Where one track stands in the assembly sequence.
#[derive(Debug, Clone, Copy, PartialEq, Eq, Structural)]
pub enum AsmPhase {
    AddUnit,
    LinkSrc,
    LinkParser,
    RequestPad,
    LinkPad,
    Rollback,
    Done,
}

/// One elementary stream discovered from the input container.
#[derive(Debug, Clone)]
pub struct Track {
    pub descriptor: CapabilityDescriptor,
    /// The routing decision, computed exactly once at discovery and
    /// immutable thereafter.
    pub decision: RouteDecision,
    pub state: TrackState,
    pub phase: AsmPhase,
    /// The track's queue/parser unit is currently attached to the graph.
    pub unit_attached: bool,
    /// The muxer pad granted to this track, once one was.
    pub pad: Option<u64>,
}

/// The live execution graph, as the assembler sees it: the recorded tracks,
/// a liveness flag, and the source of fresh muxer pad instances.
#[derive(Debug)]
pub struct PipelineGraph {
    /// False once the job was torn down; late discovery events then no-op.
    pub alive: bool,
    pub tracks: Vec<Track>,
    /// Muxer pad instances are numbered from this counter, so a fresh pad
    /// is never a pad some track already linked to.
    pub next_pad: u64,
}

/// Validity of one recorded track.
pub open spec fn track_wf(t: Track) -> bool {
    &&& t.decision == spec_classify(t.descriptor.family@, t.descriptor.mpeg_version)
    &&& (t.phase == AsmPhase::Done <==> t.state != TrackState::Discovered)
    &&& (t.phase != AsmPhase::Done && t.phase != AsmPhase::AddUnit ==> t.unit_attached)
    &&& (t.phase != AsmPhase::Done ==> t.decision.mux_pad_template is Some)
    &&& (t.phase == AsmPhase::AddUnit ==> !t.unit_attached && t.pad is None)
    &&& (t.phase == AsmPhase::LinkParser ==> t.decision.parser is Some)
    &&& (t.phase == AsmPhase::LinkPad ==> t.pad is Some)
    &&& (t.state == TrackState::Linked ==> t.unit_attached && t.pad is Some)
    &&& (t.state == TrackState::Failed(FailReason::LinkFailed) ==> !t.unit_attached)
    &&& (t.state == TrackState::Failed(FailReason::Unroutable) ==> !t.unit_attached && t.pad
        is None)
}

/// Validity of the whole graph: every track is valid, granted pads come
/// from below the counter, and no two tracks hold the same pad.
pub open spec fn graph_wf(g: PipelineGraph) -> bool {
    &&& (forall|i: int| 0 <= i < g.tracks@.len() ==> track_wf(#[trigger] g.tracks@[i]))
    &&& (forall|i: int|
        0 <= i < g.tracks@.len() && (#[trigger] g.tracks@[i].pad) is Some ==> g.tracks@[i].pad->0
            < g.next_pad)
    &&& (forall|i: int, j: int|
        0 <= i < g.tracks@.len() && 0 <= j < g.tracks@.len() && i != j && (
        #[trigger] g.tracks@[i].pad) is Some && (#[trigger] g.tracks@[j].pad) is Some
            ==> g.tracks@[i].pad->0 != g.tracks@[j].pad->0)
}

/// The track recorded for a freshly discovered descriptor: classified once;
/// unroutable streams are marked failed immediately.
pub open spec fn spec_new_track(d: CapabilityDescriptor) -> Track {
    let dec = spec_classify(d.family@, d.mpeg_version);
    if dec.mux_pad_template is None {
        Track {
            descriptor: d,
            decision: dec,
            state: TrackState::Failed(FailReason::Unroutable),
            phase: AsmPhase::Done,
            unit_attached: false,
            pad: None,
        }
    } else {
        Track {
            descriptor: d,
            decision: dec,
            state: TrackState::Discovered,
            phase: AsmPhase::AddUnit,
            unit_attached: false,
            pad: None,
        }
    }
}

/// The first action for a freshly recorded track.
pub open spec fn spec_first_action(t: Track) -> AsmAction {
    if t.phase == AsmPhase::Done {
        AsmAction::Done
    } else {
        AsmAction::AddUnit { parser: t.decision.parser }
    }
}

/// One step of the per-track assembly machine: the outcome `ok` of the
/// previously returned action moves the track on and names the next action.
pub open spec fn spec_track_step(t: Track, next_pad: u64, ok: bool) -> (Track, u64, AsmAction) {
    match t.phase {
        AsmPhase::AddUnit => if ok {
            (
                Track { phase: AsmPhase::LinkSrc, unit_attached: true, ..t },
                next_pad,
                AsmAction::LinkSrcToQueue,
            )
        } else {
            (
                Track {
                    phase: AsmPhase::Done,
                    state: TrackState::Failed(FailReason::LinkFailed),
                    ..t
                },
                next_pad,
                AsmAction::Done,
            )
        },
        AsmPhase::LinkSrc => if ok {
            if t.decision.parser is Some {
                (Track { phase: AsmPhase::LinkParser, ..t }, next_pad, AsmAction::LinkQueueToParser)
            } else {
                (
                    Track { phase: AsmPhase::RequestPad, ..t },
                    next_pad,
                    AsmAction::RequestPad(t.decision.mux_pad_template->0),
                )
            }
        } else {
            (Track { phase: AsmPhase::Rollback, ..t }, next_pad, AsmAction::RollbackUnit)
        },
        AsmPhase::LinkParser => if ok {
            (
                Track { phase: AsmPhase::RequestPad, ..t },
                next_pad,
                AsmAction::RequestPad(t.decision.mux_pad_template->0),
            )
        } else {
            (Track { phase: AsmPhase::Rollback, ..t }, next_pad, AsmAction::RollbackUnit)
        },
        AsmPhase::RequestPad => if ok {
            (
                Track { phase: AsmPhase::LinkPad, pad: Some(next_pad), ..t },
                (next_pad + 1) as u64,
                AsmAction::LinkToMuxPad,
            )
        } else {
            (
                Track {
                    phase: AsmPhase::Done,
                    state: TrackState::Failed(FailReason::MuxerPadRefused),
                    ..t
                },
                next_pad,
                AsmAction::Done,
            )
        },
        AsmPhase::LinkPad => if ok {
            (
                Track { phase: AsmPhase::Done, state: TrackState::Linked, ..t },
                next_pad,
                AsmAction::Done,
            )
        } else {
            (Track { phase: AsmPhase::Rollback, ..t }, next_pad, AsmAction::RollbackUnit)
        },
        AsmPhase::Rollback => (
            Track {
                phase: AsmPhase::Done,
                state: TrackState::Failed(FailReason::LinkFailed),
                unit_attached: false,
                ..t
            },
            next_pad,
            AsmAction::Done,
        ),
        AsmPhase::Done => (t, next_pad, AsmAction::Done),
    }
}

impl PipelineGraph {
    /// A fresh, live, empty graph.
    pub fn new() -> (g: PipelineGraph)
        ensures
            g.alive,
            g.tracks@.len() == 0,
            g.next_pad == 0,
            graph_wf(g),
    {
        PipelineGraph { alive: true, tracks: Vec::new(), next_pad: 0 }
    }

    /// The demultiplexer reported a new stream. Classifies it (exactly
    /// once), records the track, and returns its index and first action;
    /// an unroutable stream is recorded as failed with nothing to do.
    /// On a torn-down graph the event is ignored.
    pub fn track_discovered(&mut self, d: CapabilityDescriptor) -> (r: Option<(usize, AsmAction)>)
        requires
            graph_wf(*old(self)),
            old(self).tracks@.len() < usize::MAX,
        ensures
            graph_wf(*final(self)),
            final(self).alive == old(self).alive,
            final(self).next_pad == old(self).next_pad,
            !old(self).alive ==> *final(self) == *old(self) && r is None,
            old(self).alive ==> {
                &&& final(self).tracks@ == old(self).tracks@.push(spec_new_track(d))
                &&& r == Some(
                    (
                        old(self).tracks@.len() as usize,
                        spec_first_action(spec_new_track(d)),
                    ),
                )
            },
    {
        if !self.alive {
            return None;
        }
        let idx = self.tracks.len();
        let decision = classify(&d);
        let routable = decision.mux_pad_template.is_some();
        let t = if routable {
            Track {
                descriptor: d,
                decision,
                state: TrackState::Discovered,
                phase: AsmPhase::AddUnit,
                unit_attached: false,
                pad: None,
            }
        } else {
            Track {
                descriptor: d,
                decision,
                state: TrackState::Failed(FailReason::Unroutable),
                phase: AsmPhase::Done,
                unit_attached: false,
                pad: None,
            }
        };
        let action = if routable {
            AsmAction::AddUnit { parser: t.decision.parser }
        } else {
            AsmAction::Done
        };
        self.tracks.push(t);
        proof {
            assert forall|i: int| 0 <= i < self.tracks@.len() implies track_wf(
                #[trigger] self.tracks@[i],
            ) by {
                if i < self.tracks@.len() - 1 {
                    assert(self.tracks@[i] == old(self).tracks@[i]);
                }
            }
        }
        Some((idx, action))
    }

    /// Reports the outcome of the previous action for track `i` and returns
    /// the next one; `AsmAction::Done` means the track has reached its
    /// terminal state. On a torn-down graph this is a no-op.
    pub fn track_step(&mut self, i: usize, ok: bool) -> (r: AsmAction)
        requires
            graph_wf(*old(self)),
            i < old(self).tracks@.len(),
            old(self).next_pad < u64::MAX,
        ensures
            graph_wf(*final(self)),
            final(self).alive == old(self).alive,
            final(self).tracks@.len() == old(self).tracks@.len(),
            forall|j: int|
                0 <= j < old(self).tracks@.len() && j != i ==> final(self).tracks@[j] == old(
                    self,
                ).tracks@[j],
            !old(self).alive ==> *final(self) == *old(self) && r == AsmAction::Done,
            old(self).alive ==> {
                let (t2, np2, act) = spec_track_step(old(self).tracks@[i as int], old(self).next_pad, ok);
                &&& final(self).tracks@[i as int] == t2
                &&& final(self).next_pad == np2
                &&& r == act
            },
            final(self).tracks@[i as int].descriptor == old(self).tracks@[i as int].descriptor,
            final(self).tracks@[i as int].decision == old(self).tracks@[i as int].decision,
    {
        if !self.alive {
            return AsmAction::Done;
        }
        let t = &self.tracks[i];
        let phase = t.phase;
        let parser = t.decision.parser;
        let template = t.decision.mux_pad_template;
        let r: AsmAction;
        match phase {
            AsmPhase::AddUnit => {
                if ok {
                    self.tracks[i].phase = AsmPhase::LinkSrc;
                    self.tracks[i].unit_attached = true;
                    r = AsmAction::LinkSrcToQueue;
                } else {
                    self.tracks[i].phase = AsmPhase::Done;
                    self.tracks[i].state = TrackState::Failed(FailReason::LinkFailed);
                    r = AsmAction::Done;
                }
            },
            AsmPhase::LinkSrc => {
                if ok {
                    if parser.is_some() {
                        self.tracks[i].phase = AsmPhase::LinkParser;
                        r = AsmAction::LinkQueueToParser;
                    } else {
                        self.tracks[i].phase = AsmPhase::RequestPad;
                        r = AsmAction::RequestPad(template.unwrap());
                    }
                } else {
                    self.tracks[i].phase = AsmPhase::Rollback;
                    r = AsmAction::RollbackUnit;
                }
            },
            AsmPhase::LinkParser => {
                if ok {
                    self.tracks[i].phase = AsmPhase::RequestPad;
                    r = AsmAction::RequestPad(template.unwrap());
                } else {
                    self.tracks[i].phase = AsmPhase::Rollback;
                    r = AsmAction::RollbackUnit;
                }
            },
            AsmPhase::RequestPad => {
                if ok {
                    self.tracks[i].phase = AsmPhase::LinkPad;
                    self.tracks[i].pad = Some(self.next_pad);
                    self.next_pad = self.next_pad + 1;
                    r = AsmAction::LinkToMuxPad;
                } else {
                    self.tracks[i].phase = AsmPhase::Done;
                    self.tracks[i].state = TrackState::Failed(FailReason::MuxerPadRefused);
                    r = AsmAction::Done;
                }
            },
            AsmPhase::LinkPad => {
                if ok {
                    self.tracks[i].phase = AsmPhase::Done;
                    self.tracks[i].state = TrackState::Linked;
                    r = AsmAction::Done;
                } else {
                    self.tracks[i].phase = AsmPhase::Rollback;
                    r = AsmAction::RollbackUnit;
                }
            },
            AsmPhase::Rollback => {
                self.tracks[i].phase = AsmPhase::Done;
                self.tracks[i].state = TrackState::Failed(FailReason::LinkFailed);
                self.tracks[i].unit_attached = false;
                r = AsmAction::Done;
            },
            AsmPhase::Done => {
                r = AsmAction::Done;
            },
        }
        proof {
            assert forall|j: int| 0 <= j < self.tracks@.len() implies track_wf(
                #[trigger] self.tracks@[j],
            ) by {
                if j != i {
                    assert(self.tracks@[j] == old(self).tracks@[j]);
                }
            }
        }
        r
    }

    /// Tears the graph down: every later discovery event or step no-ops.
    pub fn teardown(&mut self)
        ensures
            *final(self) == (PipelineGraph { alive: false, ..*old(self) }),
    {
        self.alive = false;
    }

    /// How many tracks reached each terminal state: (linked, failed).
    pub fn summary(&self) -> (r: (usize, usize))
        ensures
            r.0 as int == count_linked(self.tracks@, self.tracks@.len() as int),
            r.1 as int == count_failed(self.tracks@, self.tracks@.len() as int),
    {
        let mut linked: usize = 0;
        let mut failed: usize = 0;
        let mut i: usize = 0;
        let n = self.tracks.len();
        while i < n
            invariant
                0 <= i <= n,
                n == self.tracks@.len(),
                linked as int == count_linked(self.tracks@, i as int),
                failed as int == count_failed(self.tracks@, i as int),
                linked <= i,
                failed <= i,
            decreases n - i,
        {
            match self.tracks[i].state {
                TrackState::Linked => {
                    linked = linked + 1;
                },
                TrackState::Failed(_) => {
                    failed = failed + 1;
                },
                TrackState::Discovered => {},
            }
            i = i + 1;
        }
        (linked, failed)
    }
}

/// How many of the first `n` tracks are linked.
pub open spec fn count_linked(ts: Seq<Track>, n: int) -> int
    decreases n,
{
    if n <= 0 {
        0
    } else {
        count_linked(ts, n - 1) + if ts[n - 1].state == TrackState::Linked {
            1int
        } else {
            0int
        }
    }
}

/// How many of the first `n` tracks have failed.
pub open spec fn count_failed(ts: Seq<Track>, n: int) -> int
    decreases n,
{
    if n <= 0 {
        0
    } else {
        count_failed(ts, n - 1) + if ts[n - 1].state matches TrackState::Failed(_) {
            1int
        } else {
            0int
        }
    }
}

/// Atomicity of a failed assembly, stated whole: when a track's machine has
/// finished, a link failure has left no partial sub-chain attached, a
/// refused muxer pad leaves the (unlinked) unit in place, an unroutable
/// track never attached anything, and a linked track holds its unit and a
/// muxer pad of its own.
pub proof fn lemma_terminal_states(g: PipelineGraph, i: int)
    requires
        graph_wf(g),
        0 <= i < g.tracks@.len(),
        g.tracks@[i].phase == AsmPhase::Done,
    ensures
        g.tracks@[i].state != TrackState::Discovered,
        g.tracks@[i].state == TrackState::Failed(FailReason::LinkFailed) ==> !g.tracks@[i].unit_attached,
        g.tracks@[i].state == TrackState::Failed(FailReason::Unroutable) ==> !g.tracks@[i].unit_attached,
        g.tracks@[i].state == TrackState::Linked ==> g.tracks@[i].unit_attached && g.tracks@[i].pad
            is Some,
{
}

/// No two tracks ever link to the same muxer pad instance.
pub proof fn lemma_distinct_pads(g: PipelineGraph, i: int, j: int)
    requires
        graph_wf(g),
        0 <= i < g.tracks@.len(),
        0 <= j < g.tracks@.len(),
        i != j,
        g.tracks@[i].pad is Some,
        g.tracks@[j].pad is Some,
    ensures
        g.tracks@[i].pad->0 != g.tracks@[j].pad->0,
{
}

} // verus!
