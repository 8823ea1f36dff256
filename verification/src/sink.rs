//! Diagnostic output. Progress telemetry is returned to the caller as
//! rendered lines; only plain diagnostics are printed from here.

use std::io::Write;
use vstd::prelude::*;

verus! {

/// Relies on std::io::Stderr's Write::write_fmt (through writeln): prints
/// one diagnostic line to standard error, best effort.
#[verifier::external_body]
pub(crate) fn emit_diag(s: &str) {
    let mut out = std::io::stderr();
    let _ = writeln!(out, "{}", s);
}

} // verus!
