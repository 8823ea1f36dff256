//! The trivial self-inspection: a report that is healthy by construction.

use vstd::prelude::*;

verus! {

/// What an environment inspection found.
#[derive(Debug, Clone)]
pub struct DoctorReport {
    pub ok: bool,
    pub hints: Vec<String>,
}

/// Runs the inspection; this build has nothing to warn about.
pub fn run_inspect() -> (r: DoctorReport)
    ensures
        r.ok,
        r.hints@.len() == 0,
{
    DoctorReport { ok: true, hints: Vec::new() }
}

} // verus!
