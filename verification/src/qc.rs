//! Quality-check reports. The metric values are carried in thousandths
//! (a PSNR of 42.5 dB is 42500), keeping the report in integers.

use vstd::prelude::*;

verus! {

/// The outcome of a quality check of a distorted file against a reference.
#[derive(Debug, Clone)]
pub struct QcReport {
    pub psnr_milli: Option<u64>,
    pub ssim_milli: Option<u64>,
    pub vmaf_milli: Option<u64>,
    pub details: String,
}

} // verus!
