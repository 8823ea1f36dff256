//! Probe reports: the structured description of an input container that
//! backends return. The cheap probe fills in only what is known without
//! opening the file; the caller supplies the file size it stat'ed.

use vstd::prelude::*;

verus! {

/// Version of the probe report schema.
pub const PROBE_SCHEMA_VERSION: u32 = 1;

/// Container-level facts about an input.
#[derive(Debug, Clone)]
pub struct FormatInfo {
    pub container: Option<String>,
    pub duration_ns: Option<u128>,
    pub size: Option<u64>,
}

/// The kind of an elementary stream.
#[derive(Debug, Clone, Copy, PartialEq, Eq, Structural)]
pub enum StreamKind {
    Video,
    Audio,
    Subtitle,
    Data,
    Unknown,
}

impl Default for StreamKind {
    /// An unprobed stream's kind is unknown.
    fn default() -> (r: StreamKind)
        ensures
            r == StreamKind::Unknown,
    {
        StreamKind::Unknown
    }
}

/// One elementary stream of the input. Frame rates are carried in
/// thousandths of a frame per second, so the report stays in integers.
#[derive(Debug, Clone)]
pub struct StreamInfo {
    pub kind: StreamKind,
    pub codec: Option<String>,
    pub width: Option<u32>,
    pub height: Option<u32>,
    pub fps_milli: Option<u64>,
    pub channels: Option<u32>,
    pub sample_rate: Option<u32>,
}

/// One chapter of the input.
#[derive(Debug, Clone)]
pub struct Chapter {
    pub start_ns: u128,
    pub end_ns: u128,
    pub title: Option<String>,
}

/// Everything a probe learned about one input.
#[derive(Debug, Clone)]
pub struct ProbeReport {
    pub schema_version: u32,
    pub path: String,
    pub format: FormatInfo,
    pub streams: Vec<StreamInfo>,
    pub chapters: Vec<Chapter>,
}

/// The cheapest possible probe: records the path and the size the caller
/// stat'ed, and claims nothing else about the input.
pub fn cheap_probe(path: &str, size: Option<u64>) -> (r: ProbeReport)
    ensures
        r.schema_version == PROBE_SCHEMA_VERSION,
        r.path@ == path@,
        r.format.container is None,
        r.format.duration_ns is None,
        r.format.size == size,
        r.streams@.len() == 0,
        r.chapters@.len() == 0,
{
    ProbeReport {
        schema_version: PROBE_SCHEMA_VERSION,
        path: path.to_owned(),
        format: FormatInfo { container: None, duration_ns: None, size },
        streams: Vec::new(),
        chapters: Vec::new(),
    }
}

} // verus!
