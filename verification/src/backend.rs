//! Backend selection and the thin entry points the command line calls.
//!
//! Selection ignores the given name: every name asks for the
//! element-library backend, whose system runtime this build does not
//! link, so the entry points here report exactly that. The mock backend,
//! which only plans and prints, is public and called directly.

use vstd::prelude::*;
use crate::probe::{cheap_probe, ProbeReport};
use crate::qc::QcReport;
use crate::sink::emit_diag;
use crate::strutil::u64_to_dec;

verus! {

/// A backend-level failure, with a human-readable message.
#[derive(Debug, Clone)]
pub struct BackendError {
    pub message: String,
}

/// Options for one run, kept in sync with the command-line flags.
#[derive(Debug, Clone)]
pub struct RunOptions {
    pub backend: String,
    pub input: String,
    pub output: String,
    pub cfr: bool,
    pub fps: Option<u32>,
    pub execute: bool,
    pub progress_json: bool,
    pub manifest: Option<String>,
    pub hardware: Option<String>,
}

impl Default for RunOptions {
    /// All strings empty, all flags off.
    fn default() -> (r: RunOptions)
        ensures
            r.backend@.len() == 0,
            r.input@.len() == 0,
            r.output@.len() == 0,
            !r.cfr,
            r.fps is None,
            !r.execute,
            !r.progress_json,
            r.manifest is None,
            r.hardware is None,
    {
        RunOptions {
            backend: String::new(),
            input: String::new(),
            output: String::new(),
            cfr: false,
            fps: None,
            execute: false,
            progress_json: false,
            manifest: None,
            hardware: None,
        }
    }
}

/// Options for a quality check.
#[derive(Debug, Clone)]
pub struct QcOptions {
    pub ref_path: String,
    pub dist_path: String,
    pub vmaf_model: Option<String>,
}

impl Default for QcOptions {
    /// All paths empty, no model.
    fn default() -> (r: QcOptions)
        ensures
            r.ref_path@.len() == 0,
            r.dist_path@.len() == 0,
            r.vmaf_model is None,
    {
        QcOptions { ref_path: String::new(), dist_path: String::new(), vmaf_model: None }
    }
}

/// The common interface all backends implement.
pub trait Backend {
    fn name(&self) -> &'static str;

    fn run(&self, opts: &RunOptions) -> Result<(), BackendError>;

    fn probe(&self, path: &str) -> Result<ProbeReport, BackendError>;

    fn qc(&self, opts: &QcOptions) -> Result<QcReport, BackendError>;
}

/// The backend that plans without executing: prints what it was asked to
/// do and succeeds.
#[derive(Debug, Clone, Copy)]
pub struct MockBackend;

/// The mock run: reports the plan as diagnostics and always succeeds.
pub fn mock_run(opts: &RunOptions) -> (r: Result<(), BackendError>)
    ensures
        r is Ok,
{
    emit_diag("[mock] RUN planning:0 (100.0 %)");
    let mut l = "  input=".to_owned();
    l.append(opts.input.as_str());
    l.append(" output=");
    l.append(opts.output.as_str());
    emit_diag(l.as_str());
    let mut l2 = "  backend=".to_owned();
    l2.append(opts.backend.as_str());
    l2.append(" zero_copy=false gpu_preset=None");
    emit_diag(l2.as_str());
    let mut l3 = "  cfr=".to_owned();
    l3.append(if opts.cfr {
        "true"
    } else {
        "false"
    });
    l3.append(" fps=");
    match opts.fps {
        Some(n) => {
            l3.append("Some(");
            let d = u64_to_dec(n as u64);
            l3.append(d.as_str());
            l3.append(")");
        },
        None => {
            l3.append("None");
        },
    }
    emit_diag(l3.as_str());
    let mut l4 = "  resume=true progress=".to_owned();
    l4.append(if opts.progress_json {
        "true"
    } else {
        "false"
    });
    emit_diag(l4.as_str());
    Ok(())
}

impl Backend for MockBackend {
    fn name(&self) -> &'static str {
        "mock"
    }

    fn run(&self, opts: &RunOptions) -> Result<(), BackendError> {
        mock_run(opts)
    }

    fn probe(&self, path: &str) -> Result<ProbeReport, BackendError> {
        Ok(cheap_probe(path, None))
    }

    fn qc(&self, _opts: &QcOptions) -> Result<QcReport, BackendError> {
        Ok(
            QcReport {
                psnr_milli: None,
                ssim_milli: None,
                vmaf_milli: None,
                details: "mock qc".to_owned(),
            },
        )
    }
}

/// Picks a backend by name. The name is ignored: every name asks for the
/// element-library backend, and this build does not link its system
/// runtime, so selection always reports that. The mock backend is public
/// and is called directly, not selected.
pub fn select_backend(name: &str) -> (r: Result<MockBackend, BackendError>)
    ensures
        r is Err,
        r->Err_0.message@ == "gst backend not built; enable feature `gst` on mmx-core"@,
{
    let _ = name;
    Err(
        BackendError {
            message: "gst backend not built; enable feature `gst` on mmx-core".to_owned(),
        },
    )
}

/// Runs a job with the selected backend; in this build selection always
/// reports the missing runtime, whatever the options name.
pub fn run(opts: &RunOptions) -> (r: Result<(), BackendError>)
    ensures
        r is Err,
        r->Err_0.message@ == "gst backend not built; enable feature `gst` on mmx-core"@,
{
    match select_backend(opts.backend.as_str()) {
        Ok(b) => b.run(opts),
        Err(e) => Err(e),
    }
}

/// Probes an input with the selected backend; in this build selection
/// always reports the missing runtime.
pub fn probe(path: &str) -> (r: Result<ProbeReport, BackendError>)
    ensures
        r is Err,
        r->Err_0.message@ == "gst backend not built; enable feature `gst` on mmx-core"@,
{
    match select_backend("gst") {
        Ok(b) => b.probe(path),
        Err(e) => Err(e),
    }
}

/// Quality-checks with the selected backend; in this build selection
/// always reports the missing runtime.
pub fn qc(opts: &QcOptions) -> (r: Result<QcReport, BackendError>)
    ensures
        r is Err,
        r->Err_0.message@ == "gst backend not built; enable feature `gst` on mmx-core"@,
{
    match select_backend("gst") {
        Ok(b) => b.qc(opts),
        Err(e) => Err(e),
    }
}

} // verus!
