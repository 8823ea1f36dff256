//! Execution and progress monitor: the state machine that drives a job
//! through its run states, consumes control-bus events, and decides which
//! progress telemetry to emit.
//!
//! The monitor itself performs no I/O. The caller waits on the control bus
//! with a bounded timeout, queries position and duration, and hands both to
//! [`Monitor::on_wake`]; the returned [`WakeOutput`] says what to print (via
//! [`emission_line`]) and how to proceed.

use vstd::prelude::*;
use crate::strutil::{dec_digit_char, dec_str, json_num_or_null, u64_to_dec, u64_to_dec_pad2};

verus! {

/// How often, at most, a progress event is emitted (milliseconds).
pub const EMIT_INTERVAL_MS: u64 = 200;

/// The run states of one job. Transitions are strictly ordered
/// (`Idle -> Assembling -> Playing -> Draining -> Completed`) except for the
/// error path, which may jump to `Failed` from any non-terminal state.
#[derive(Debug, Clone, Copy, PartialEq, Eq, Structural)]
pub enum RunState {
    Idle,
    Assembling,
    Playing,
    Draining,
    Completed,
    Failed,
}

/// A job-level error surfaced by the backend: a message plus optional
/// diagnostic detail.
#[derive(Debug, Clone)]
pub struct JobError {
    pub message: String,
    pub detail: Option<String>,
}

/// A discrete event popped from the control bus.
#[derive(Debug)]
pub enum BusEvent {
    /// The execution backend reports it has entered a running state.
    Running,
    /// End of stream.
    Eos,
    /// The backend reports a pipeline error.
    Error(JobError),
    /// Any other bus message; treated like a timeout slice.
    Other,
}

/// What the caller observed at this wake-up.
#[derive(Debug, Clone, Copy)]
pub struct WakeInput {
    /// Milliseconds of wall clock since the job started.
    pub now_ms: u64,
    /// Current playback position, if the backend answered the query.
    pub position_ns: Option<u64>,
    /// Total duration, if the backend answered the query.
    pub duration_ns: Option<u64>,
    /// The caller asked for early termination.
    pub cancel_requested: bool,
}

/// One progress measurement; `pct_centi` is hundredths of a percent in
/// [0, 10000], or `None` while the total duration is unknown.
#[derive(Debug, Clone, Copy, PartialEq, Eq)]
pub struct ProgressSnapshot {
    pub position_ns: Option<u64>,
    pub duration_ns: Option<u64>,
    pub pct_centi: Option<u32>,
}

/// The kinds of telemetry event the monitor emits.
#[derive(Debug, Clone, Copy, PartialEq, Eq, Structural)]
pub enum EmitKind {
    Start,
    Progress,
    End,
}

/// One telemetry event, ready to be rendered as a JSON line.
#[derive(Debug, Clone, Copy, PartialEq, Eq)]
pub struct Emission {
    pub kind: EmitKind,
    pub snap: ProgressSnapshot,
}

/// What the caller must do after a wake-up.
#[derive(Debug, Clone, Copy, PartialEq, Eq, Structural)]
pub enum Directive {
    /// Keep waiting on the bus.
    Continue,
    /// End of stream was accepted: drain the pipeline, then call
    /// [`Monitor::complete`] and write the completion checkpoint.
    BeginDrain,
    /// A pipeline error: stop the pipeline, write the checkpoint without a
    /// completion timestamp, and return the error.
    Abort,
    /// Cancellation was requested: stop the pipeline; the outcome is
    /// cancelled, not failed, and nothing more is emitted.
    Cancel,
}

/// The monitor's whole state.
#[derive(Debug, Clone, Copy)]
pub struct Monitor {
    pub state: RunState,
    /// Telemetry is only produced when the caller asked for it.
    pub progress_enabled: bool,
    /// The start event has been emitted.
    pub start_emitted: bool,
    /// Total duration, once learned from the backend.
    pub duration_ns: Option<u64>,
    /// When the last telemetry event was emitted.
    pub last_emit_ms: u64,
    /// The last emitted percentage; emissions never go below it.
    pub last_pct_centi: u32,
    /// The completion event has been emitted; set at most once.
    pub completion_emitted: bool,
}

/// Everything a single wake-up decides.
pub struct WakeOutput {
    pub emission: Option<Emission>,
    pub directive: Directive,
    /// The error carried by an `Error` bus event that caused an `Abort`.
    pub error: Option<JobError>,
}

/// Well-formedness of a monitor: the retained percentage is a percentage,
/// and the completion flag agrees with the run state.
pub open spec fn wf(m: Monitor) -> bool {
    &&& m.last_pct_centi <= 10000
    &&& (m.completion_emitted ==> (m.state == RunState::Draining || m.state == RunState::Completed
        || m.state == RunState::Failed))
    &&& ((m.state == RunState::Draining || m.state == RunState::Completed)
        ==> m.completion_emitted)
}

/// The legal run-state transitions: stay, step forward in the strict order,
/// or jump to `Failed` from a non-terminal state.
pub open spec fn ok_transition(a: RunState, b: RunState) -> bool {
    ||| a == b
    ||| (a == RunState::Idle && b == RunState::Assembling)
    ||| (a == RunState::Assembling && b == RunState::Playing)
    ||| (a == RunState::Playing && b == RunState::Draining)
    ||| (a == RunState::Draining && b == RunState::Completed)
    ||| (a != RunState::Completed && a != RunState::Failed && b == RunState::Failed)
}

/// The percentage reported for a position within a duration: clamped to
/// [0, 10000] and never below the last emitted percentage.
pub open spec fn spec_pct_centi(pos: u64, dur: u64, last: u32) -> u32
    recommends
        dur > 0,
{
    let raw = pos * 10000 / (dur as int);
    let clamped = if raw > 10000 {
        10000
    } else {
        raw
    };
    if clamped < last {
        last
    } else {
        clamped as u32
    }
}

/// The snapshot a progress wake emits, given what the caller observed.
pub open spec fn spec_progress_snapshot(m: Monitor, w: WakeInput) -> ProgressSnapshot {
    let dur = if m.duration_ns is Some {
        m.duration_ns
    } else {
        w.duration_ns
    };
    let pct = match (w.position_ns, dur) {
        (Some(p), Some(d)) => if d > 0 {
            Some(spec_pct_centi(p, d, m.last_pct_centi))
        } else {
            None
        },
        _ => None,
    };
    ProgressSnapshot { position_ns: w.position_ns, duration_ns: dur, pct_centi: pct }
}

/// The result of one wake-up, at the specification level.
pub struct SpecWake {
    pub next: Monitor,
    pub emit: Option<Emission>,
    pub directive: Directive,
    pub error: Option<JobError>,
}

/// The monitor's transition function: one bus wake-up (an event, or a
/// timeout slice when `ev` is `None`) taken against the observed clock,
/// position and duration.
pub open spec fn spec_wake(m: Monitor, ev: Option<BusEvent>, w: WakeInput) -> SpecWake {
    if w.cancel_requested {
        SpecWake { next: m, emit: None, directive: Directive::Cancel, error: None }
    } else {
        match ev {
            Some(BusEvent::Error(e)) => if m.state != RunState::Completed && m.state
                != RunState::Failed {
                SpecWake {
                    next: Monitor { state: RunState::Failed, ..m },
                    emit: None,
                    directive: Directive::Abort,
                    error: Some(e),
                }
            } else {
                SpecWake { next: m, emit: None, directive: Directive::Continue, error: None }
            },
            Some(BusEvent::Eos) => if m.state == RunState::Playing && !m.completion_emitted {
                let dur = if m.duration_ns is Some {
                    m.duration_ns
                } else {
                    w.duration_ns
                };
                SpecWake {
                    next: Monitor {
                        state: RunState::Draining,
                        duration_ns: dur,
                        last_emit_ms: w.now_ms,
                        last_pct_centi: 10000,
                        completion_emitted: true,
                        ..m
                    },
                    emit: if m.progress_enabled {
                        Some(
                            Emission {
                                kind: EmitKind::End,
                                snap: ProgressSnapshot {
                                    position_ns: dur,
                                    duration_ns: dur,
                                    pct_centi: Some(10000),
                                },
                            },
                        )
                    } else {
                        None
                    },
                    directive: Directive::BeginDrain,
                    error: None,
                }
            } else {
                SpecWake { next: m, emit: None, directive: Directive::Continue, error: None }
            },
            Some(BusEvent::Running) => if m.state == RunState::Assembling {
                SpecWake {
                    next: Monitor { state: RunState::Playing, ..m },
                    emit: None,
                    directive: Directive::Continue,
                    error: None,
                }
            } else {
                SpecWake { next: m, emit: None, directive: Directive::Continue, error: None }
            },
            _ => if m.state == RunState::Playing && m.progress_enabled && w.now_ms >= m.last_emit_ms
                + EMIT_INTERVAL_MS {
                let snap = spec_progress_snapshot(m, w);
                SpecWake {
                    next: Monitor {
                        duration_ns: snap.duration_ns,
                        last_emit_ms: w.now_ms,
                        last_pct_centi: match snap.pct_centi {
                            Some(p) => p,
                            None => m.last_pct_centi,
                        },
                        ..m
                    },
                    emit: Some(Emission { kind: EmitKind::Progress, snap }),
                    directive: Directive::Continue,
                    error: None,
                }
            } else {
                SpecWake { next: m, emit: None, directive: Directive::Continue, error: None }
            },
        }
    }
}

/// The monitor a fresh job starts with.
pub open spec fn spec_monitor_new(progress_enabled: bool) -> Monitor {
    Monitor {
        state: RunState::Idle,
        progress_enabled,
        start_emitted: false,
        duration_ns: None,
        last_emit_ms: 0,
        last_pct_centi: 0,
        completion_emitted: false,
    }
}

impl Monitor {
    /// A fresh monitor for one job.
    pub fn new(progress_enabled: bool) -> (m: Monitor)
        ensures
            m == spec_monitor_new(progress_enabled),
            wf(m),
    {
        Monitor {
            state: RunState::Idle,
            progress_enabled,
            start_emitted: false,
            duration_ns: None,
            last_emit_ms: 0,
            last_pct_centi: 0,
            completion_emitted: false,
        }
    }

    /// Emits the start event, once; later calls return nothing.
    pub fn begin(&mut self) -> (r: Option<Emission>)
        ensures
            final(self).start_emitted,
            *final(self) == (Monitor { start_emitted: true, ..*old(self) }),
            r is Some <==> (old(self).progress_enabled && !old(self).start_emitted),
            r is Some ==> r->0 == (Emission {
                kind: EmitKind::Start,
                snap: ProgressSnapshot { position_ns: None, duration_ns: None, pct_centi: None },
            }),
    {
        if self.progress_enabled && !self.start_emitted {
            self.start_emitted = true;
            Some(
                Emission {
                    kind: EmitKind::Start,
                    snap: ProgressSnapshot { position_ns: None, duration_ns: None, pct_centi: None },
                },
            )
        } else {
            self.start_emitted = true;
            None
        }
    }

    /// The first track has been wired: the job is assembling.
    pub fn note_first_track(&mut self)
        ensures
            *final(self) == if old(self).state == RunState::Idle {
                (Monitor { state: RunState::Assembling, ..*old(self) })
            } else {
                *old(self)
            },
            ok_transition(old(self).state, final(self).state),
    {
        if self.state == RunState::Idle {
            self.state = RunState::Assembling;
        }
    }

    /// One wake-up from the bounded bus wait.
    pub fn on_wake(&mut self, ev: Option<BusEvent>, w: WakeInput) -> (out: WakeOutput)
        ensures
            ({
                let s = spec_wake(*old(self), ev, w);
                &&& *final(self) == s.next
                &&& out.emission == s.emit
                &&& out.directive == s.directive
                &&& out.error == s.error
            }),
    {
        if w.cancel_requested {
            return WakeOutput { emission: None, directive: Directive::Cancel, error: None };
        }
        match ev {
            Some(BusEvent::Error(e)) => {
                if self.state != RunState::Completed && self.state != RunState::Failed {
                    self.state = RunState::Failed;
                    WakeOutput { emission: None, directive: Directive::Abort, error: Some(e) }
                } else {
                    WakeOutput { emission: None, directive: Directive::Continue, error: None }
                }
            },
            Some(BusEvent::Eos) => {
                if self.state == RunState::Playing && !self.completion_emitted {
                    let dur = if self.duration_ns.is_some() {
                        self.duration_ns
                    } else {
                        w.duration_ns
                    };
                    self.state = RunState::Draining;
                    self.duration_ns = dur;
                    self.last_emit_ms = w.now_ms;
                    self.last_pct_centi = 10000;
                    self.completion_emitted = true;
                    let emission = if self.progress_enabled {
                        Some(
                            Emission {
                                kind: EmitKind::End,
                                snap: ProgressSnapshot {
                                    position_ns: dur,
                                    duration_ns: dur,
                                    pct_centi: Some(10000),
                                },
                            },
                        )
                    } else {
                        None
                    };
                    WakeOutput { emission, directive: Directive::BeginDrain, error: None }
                } else {
                    WakeOutput { emission: None, directive: Directive::Continue, error: None }
                }
            },
            Some(BusEvent::Running) => {
                if self.state == RunState::Assembling {
                    self.state = RunState::Playing;
                }
                WakeOutput { emission: None, directive: Directive::Continue, error: None }
            },
            _ => {
                if self.state == RunState::Playing && self.progress_enabled && w.now_ms
                    >= self.last_emit_ms && w.now_ms - self.last_emit_ms >= EMIT_INTERVAL_MS {
                    let dur = if self.duration_ns.is_some() {
                        self.duration_ns
                    } else {
                        w.duration_ns
                    };
                    let pct: Option<u32> = match (w.position_ns, dur) {
                        (Some(p), Some(d)) => if d > 0 {
                            Some(pct_centi(p, d, self.last_pct_centi))
                        } else {
                            None
                        },
                        _ => None,
                    };
                    let snap = ProgressSnapshot {
                        position_ns: w.position_ns,
                        duration_ns: dur,
                        pct_centi: pct,
                    };
                    self.duration_ns = dur;
                    self.last_emit_ms = w.now_ms;
                    if let Some(p) = pct {
                        self.last_pct_centi = p;
                    }
                    WakeOutput {
                        emission: Some(Emission { kind: EmitKind::Progress, snap }),
                        directive: Directive::Continue,
                        error: None,
                    }
                } else {
                    WakeOutput { emission: None, directive: Directive::Continue, error: None }
                }
            },
        }
    }

    /// The pipeline has been drained after end of stream: the job is done.
    pub fn complete(&mut self)
        requires
            old(self).state == RunState::Draining,
        ensures
            *final(self) == (Monitor { state: RunState::Completed, ..*old(self) }),
            ok_transition(old(self).state, final(self).state),
    {
        self.state = RunState::Completed;
    }
}

/// A centi-percentage rendered as a JSON number with two decimals
/// (10000 becomes "100.00").
pub open spec fn pct_str(c: u32) -> Seq<char> {
    dec_str((c / 100) as nat) + seq!['.'] + seq![
        dec_digit_char((c as int % 100) / 10),
        dec_digit_char((c as int % 100) % 10),
    ]
}

/// A percentage rendered as JSON, or null while it is unknown.
pub open spec fn json_pct_or_null(v: Option<u32>) -> Seq<char> {
    match v {
        Some(c) => pct_str(c),
        None => "null"@,
    }
}

/// The JSON line for one named telemetry event.
pub open spec fn render_event(name: Seq<char>, snap: ProgressSnapshot) -> Seq<char> {
    "{\"event\":\""@ + name + "\",\"position_ns\":"@ + json_num_or_null(snap.position_ns)
        + ",\"duration_ns\":"@ + json_num_or_null(snap.duration_ns) + ",\"pct\":"@
        + json_pct_or_null(snap.pct_centi) + "}"@
}

/// The JSON line for an emission.
pub open spec fn render_emission(e: Emission) -> Seq<char> {
    match e.kind {
        EmitKind::Start => "{\"event\":\"start\"}"@,
        EmitKind::Progress => render_event("progress"@, e.snap),
        EmitKind::End => render_event("end"@, e.snap),
    }
}

fn append_num_or_null(s: &mut String, v: Option<u64>)
    ensures
        final(s)@ == old(s)@ + json_num_or_null(v),
{
    match v {
        Some(n) => {
            let t = u64_to_dec(n);
            s.append(t.as_str());
        },
        None => {
            s.append("null");
        },
    }
}

fn append_pct_or_null(s: &mut String, v: Option<u32>)
    ensures
        final(s)@ == old(s)@ + json_pct_or_null(v),
{
    match v {
        Some(c) => {
            let whole = u64_to_dec((c / 100) as u64);
            s.append(whole.as_str());
            s.append(".");
            let frac = u64_to_dec_pad2((c % 100) as u64);
            s.append(frac.as_str());
            proof {
                reveal_strlit(".");
                assert(s@ =~= old(s)@ + pct_str(c));
            }
        },
        None => {
            s.append("null");
        },
    }
}

fn render_event_line(name: &str, snap: &ProgressSnapshot) -> (r: String)
    ensures
        r@ == render_event(name@, *snap),
{
    let mut s = String::new();
    s.append("{\"event\":\"");
    s.append(name);
    s.append("\",\"position_ns\":");
    append_num_or_null(&mut s, snap.position_ns);
    s.append(",\"duration_ns\":");
    append_num_or_null(&mut s, snap.duration_ns);
    s.append(",\"pct\":");
    append_pct_or_null(&mut s, snap.pct_centi);
    s.append("}");
    proof {
        assert(s@ =~= render_event(name@, *snap));
    }
    s
}

/// Renders an emission as its JSON line, exactly as [`render_emission`]
/// states it. The caller writes the line to the progress sink.
pub fn emission_line(e: &Emission) -> (r: String)
    ensures
        r@ == render_emission(*e),
{
    match e.kind {
        EmitKind::Start => "{\"event\":\"start\"}".to_owned(),
        EmitKind::Progress => render_event_line("progress", &e.snap),
        EmitKind::End => render_event_line("end", &e.snap),
    }
}

/// One wake-up of a well-formed monitor keeps it well-formed and moves the
/// run state only along a legal transition.
pub proof fn lemma_wake_wf(m: Monitor, ev: Option<BusEvent>, w: WakeInput)
    requires
        wf(m),
    ensures
        wf(spec_wake(m, ev, w).next),
        ok_transition(m.state, spec_wake(m, ev, w).next.state),
{
}

/// The clamped percentage is a percentage and never below the floor.
proof fn lemma_pct_centi_bounds(pos: u64, dur: u64, last: u32)
    requires
        dur > 0,
        last <= 10000,
    ensures
        last <= spec_pct_centi(pos, dur, last),
        spec_pct_centi(pos, dur, last) <= 10000,
{
    assert(pos * 10000 / (dur as int) >= 0) by (nonlinear_arith)
        requires
            dur > 0,
    ;
}

/// The retained percentage stays within [0, 10000] and never decreases, and
/// an emission that carries a percentage reports exactly the new retained
/// value.
pub proof fn lemma_wake_pct(m: Monitor, ev: Option<BusEvent>, w: WakeInput)
    requires
        m.last_pct_centi <= 10000,
    ensures
        ({
            let s = spec_wake(m, ev, w);
            &&& s.next.last_pct_centi <= 10000
            &&& m.last_pct_centi <= s.next.last_pct_centi
            &&& (match s.emit {
                Some(e) => match e.snap.pct_centi {
                    Some(p) => p == s.next.last_pct_centi && m.last_pct_centi <= p && p <= 10000,
                    None => true,
                },
                None => true,
            })
        }),
{
    if !w.cancel_requested {
        let dur = if m.duration_ns is Some {
            m.duration_ns
        } else {
            w.duration_ns
        };
        if w.position_ns is Some && dur is Some && dur->0 > 0 {
            lemma_pct_centi_bounds(w.position_ns->0, dur->0, m.last_pct_centi);
        }
    }
}

/// One step of a wake-up trace: the monitor after the first `i` wake-ups.
pub open spec fn trace_state(m: Monitor, steps: Seq<WakeStep>, i: int) -> Monitor
    decreases i,
{
    if i <= 0 {
        m
    } else {
        spec_wake(trace_state(m, steps, i - 1), steps[i - 1].ev, steps[i - 1].w).next
    }
}

/// What wake-up `i` of a trace emits.
pub open spec fn trace_emit(m: Monitor, steps: Seq<WakeStep>, i: int) -> Option<Emission> {
    spec_wake(trace_state(m, steps, i), steps[i].ev, steps[i].w).emit
}

/// One wake-up of a trace, with the bus event (or timeout) and the observed
/// clock, position and duration.
pub struct WakeStep {
    pub ev: Option<BusEvent>,
    pub w: WakeInput,
}

proof fn lemma_trace_pct_bound(m: Monitor, steps: Seq<WakeStep>, i: int)
    requires
        m.last_pct_centi <= 10000,
        0 <= i,
    ensures
        trace_state(m, steps, i).last_pct_centi <= 10000,
    decreases i,
{
    if i > 0 {
        lemma_trace_pct_bound(m, steps, i - 1);
        lemma_wake_pct(trace_state(m, steps, i - 1), steps[i - 1].ev, steps[i - 1].w);
    }
}

proof fn lemma_trace_pct_monotone(m: Monitor, steps: Seq<WakeStep>, i: int, j: int)
    requires
        m.last_pct_centi <= 10000,
        0 <= i <= j,
    ensures
        trace_state(m, steps, i).last_pct_centi <= trace_state(m, steps, j).last_pct_centi,
    decreases j - i,
{
    if i < j {
        lemma_trace_pct_monotone(m, steps, i, j - 1);
        lemma_trace_pct_bound(m, steps, j - 1);
        lemma_wake_pct(trace_state(m, steps, j - 1), steps[j - 1].ev, steps[j - 1].w);
    }
}

/// Progress percentages are bounded and monotone: over any run of wake-ups
/// of one job, every emitted percentage lies within [0, 100] (in hundredths
/// here), and a later emission never reports less than an earlier one.
pub proof fn lemma_percent_bounded_monotone(m: Monitor, steps: Seq<WakeStep>, i: int, j: int)
    requires
        m.last_pct_centi <= 10000,
        0 <= i <= j < steps.len(),
        trace_emit(m, steps, i) is Some,
        trace_emit(m, steps, i)->0.snap.pct_centi is Some,
        trace_emit(m, steps, j) is Some,
        trace_emit(m, steps, j)->0.snap.pct_centi is Some,
    ensures
        trace_emit(m, steps, i)->0.snap.pct_centi->0 <= trace_emit(
            m,
            steps,
            j,
        )->0.snap.pct_centi->0,
        trace_emit(m, steps, j)->0.snap.pct_centi->0 <= 10000,
{
    lemma_trace_pct_bound(m, steps, i);
    lemma_trace_pct_bound(m, steps, j);
    lemma_wake_pct(trace_state(m, steps, i), steps[i].ev, steps[i].w);
    lemma_wake_pct(trace_state(m, steps, j), steps[j].ev, steps[j].w);
    if i < j {
        lemma_trace_pct_monotone(m, steps, i + 1, j);
    }
}

proof fn lemma_quiet_after_completion(m: Monitor, ev: Option<BusEvent>, w: WakeInput)
    requires
        m.completion_emitted,
        m.state == RunState::Draining || m.state == RunState::Completed || m.state
            == RunState::Failed,
    ensures
        ({
            let s = spec_wake(m, ev, w);
            &&& s.emit is None
            &&& s.next.completion_emitted
            &&& (s.next.state == RunState::Draining || s.next.state == RunState::Completed
                || s.next.state == RunState::Failed)
        }),
{
}

proof fn lemma_trace_quiet(m: Monitor, steps: Seq<WakeStep>, k: int, j: int)
    requires
        trace_state(m, steps, k).completion_emitted,
        trace_state(m, steps, k).state == RunState::Draining || trace_state(m, steps, k).state
            == RunState::Completed || trace_state(m, steps, k).state == RunState::Failed,
        0 <= k <= j < steps.len(),
    ensures
        trace_emit(m, steps, j) is None,
    decreases j - k,
{
    lemma_quiet_after_completion(trace_state(m, steps, k), steps[k].ev, steps[k].w);
    if k < j {
        lemma_trace_quiet(m, steps, k + 1, j);
    }
}

/// The completion event is the last event of a job, and so is emitted at
/// most once: after the wake-up that emits the end event, no later wake-up
/// emits anything at all.
pub proof fn lemma_completion_event_last(m: Monitor, steps: Seq<WakeStep>, i: int, j: int)
    requires
        0 <= i < j < steps.len(),
        trace_emit(m, steps, i) is Some,
        trace_emit(m, steps, i)->0.kind == EmitKind::End,
    ensures
        trace_emit(m, steps, j) is None,
{
    let s = spec_wake(trace_state(m, steps, i), steps[i].ev, steps[i].w);
    assert(s.next.completion_emitted && s.next.state == RunState::Draining);
    lemma_trace_quiet(m, steps, i + 1, j);
}

/// The position of a run state in the strict order; the terminal error
/// state sits last, reachable from anywhere.
pub open spec fn rank(s: RunState) -> int {
    match s {
        RunState::Idle => 0,
        RunState::Assembling => 1,
        RunState::Playing => 2,
        RunState::Draining => 3,
        RunState::Completed => 4,
        RunState::Failed => 5,
    }
}

proof fn lemma_wake_rank(m: Monitor, ev: Option<BusEvent>, w: WakeInput)
    ensures
        rank(m.state) <= rank(spec_wake(m, ev, w).next.state),
{
}

/// Run states only move forward: over any run of wake-ups, the run state
/// never moves backward in the strict order, and the error state, once
/// reached, is never left.
pub proof fn lemma_run_state_monotone(m: Monitor, steps: Seq<WakeStep>, i: int, j: int)
    requires
        0 <= i <= j,
    ensures
        rank(trace_state(m, steps, i).state) <= rank(trace_state(m, steps, j).state),
    decreases j - i,
{
    if i < j {
        lemma_run_state_monotone(m, steps, i, j - 1);
        lemma_wake_rank(trace_state(m, steps, j - 1), steps[j - 1].ev, steps[j - 1].w);
    }
}

/// The completion event is owed: a well-formed playing monitor with
/// telemetry enabled that receives end of stream (and no cancellation)
/// emits the end event on that very wake-up, reports full percent, and
/// directs the caller to drain.
pub proof fn lemma_eos_emits_completion(m: Monitor, w: WakeInput)
    requires
        wf(m),
        m.state == RunState::Playing,
        m.progress_enabled,
        !w.cancel_requested,
    ensures
        ({
            let s = spec_wake(m, Some(BusEvent::Eos), w);
            &&& s.emit is Some
            &&& s.emit->0.kind == EmitKind::End
            &&& s.emit->0.snap.pct_centi == Some(10000u32)
            &&& s.directive == Directive::BeginDrain
            &&& s.next.state == RunState::Draining
            &&& s.next.completion_emitted
        }),
{
}

/// The clamped, monotone percentage, in executable form.
pub fn pct_centi(pos: u64, dur: u64, last: u32) -> (r: u32)
    requires
        dur > 0,
    ensures
        r == spec_pct_centi(pos, dur, last),
{
    let raw = (pos as u128) * 10000 / (dur as u128);
    let clamped: u32 = if raw > 10000 {
        10000
    } else {
        raw as u32
    };
    if clamped < last {
        last
    } else {
        clamped
    }
}

} // verus!
