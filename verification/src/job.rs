//! One remux job: the execution monitor and the graph it observes.
//!
//! Stream discovery happens on the backend's own worker context, so the
//! assembly entry points here are the only ones that may run concurrently
//! with the monitor's polling loop; the caller serializes them with the
//! job's mutex. Their contracts state that they touch only the graph:
//! however a track's assembly turns out, the monitor — and with it the
//! job's run state — is unchanged, so per-track failures can never abort a
//! job by themselves.

use vstd::prelude::*;
use crate::graph::{graph_wf, spec_first_action, spec_new_track, spec_track_step, AsmAction,
    PipelineGraph};
use crate::monitor::{spec_monitor_new, Monitor};
use crate::route::CapabilityDescriptor;

verus! {

/// How a job can end when it was not failed by the backend.
#[derive(Debug, Clone, Copy, PartialEq, Eq, Structural)]
pub enum JobOutcome {
    Completed,
    Cancelled,
}

/// A monitor plus the graph it drives: the state of one job.
#[derive(Debug)]
pub struct Job {
    pub monitor: Monitor,
    pub graph: PipelineGraph,
}

impl Job {
    /// A fresh job: idle monitor, live empty graph.
    pub fn new(progress_enabled: bool) -> (j: Job)
        ensures
            j.monitor == spec_monitor_new(progress_enabled),
            j.graph.alive,
            j.graph.tracks@.len() == 0,
            j.graph.next_pad == 0,
            graph_wf(j.graph),
    {
        Job { monitor: Monitor::new(progress_enabled), graph: PipelineGraph::new() }
    }

    /// A discovery callback reported a new stream. Only the graph changes:
    /// the monitor, and with it the run state, is untouched, so a track
    /// that later fails cannot abort the job.
    pub fn on_track_discovered(&mut self, d: CapabilityDescriptor) -> (r: Option<
        (usize, AsmAction),
    >)
        requires
            graph_wf(old(self).graph),
            old(self).graph.tracks@.len() < usize::MAX,
        ensures
            final(self).monitor == old(self).monitor,
            graph_wf(final(self).graph),
            final(self).graph.alive == old(self).graph.alive,
            final(self).graph.next_pad == old(self).graph.next_pad,
            !old(self).graph.alive ==> final(self).graph == old(self).graph && r is None,
            old(self).graph.alive ==> {
                &&& final(self).graph.tracks@ == old(self).graph.tracks@.push(spec_new_track(d))
                &&& r == Some(
                    (
                        old(self).graph.tracks@.len() as usize,
                        spec_first_action(spec_new_track(d)),
                    ),
                )
            },
    {
        self.graph.track_discovered(d)
    }

    /// Reports one assembly step's outcome for track `i`. Only the graph
    /// changes; the monitor is untouched.
    pub fn on_track_step(&mut self, i: usize, ok: bool) -> (r: AsmAction)
        requires
            graph_wf(old(self).graph),
            i < old(self).graph.tracks@.len(),
            old(self).graph.next_pad < u64::MAX,
        ensures
            final(self).monitor == old(self).monitor,
            graph_wf(final(self).graph),
            final(self).graph.alive == old(self).graph.alive,
            final(self).graph.tracks@.len() == old(self).graph.tracks@.len(),
            forall|j: int|
                0 <= j < old(self).graph.tracks@.len() && j != i ==> final(self).graph.tracks@[j]
                    == old(self).graph.tracks@[j],
            !old(self).graph.alive ==> final(self).graph == old(self).graph && r == AsmAction::Done,
            old(self).graph.alive ==> {
                let (t2, np2, act) = spec_track_step(
                    old(self).graph.tracks@[i as int],
                    old(self).graph.next_pad,
                    ok,
                );
                &&& final(self).graph.tracks@[i as int] == t2
                &&& final(self).graph.next_pad == np2
                &&& r == act
            },
    {
        self.graph.track_step(i, ok)
    }

    /// Tears the graph down (job aborted or finished): late discovery
    /// events will detect this and no-op. The monitor is untouched.
    pub fn teardown_graph(&mut self)
        ensures
            final(self).monitor == old(self).monitor,
            final(self).graph == (PipelineGraph { alive: false, ..old(self).graph }),
    {
        self.graph.teardown()
    }
}

} // verus!
