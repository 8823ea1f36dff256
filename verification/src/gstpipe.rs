//! Builds the textual pipeline description for the element-library
//! backend: source, optional frame-rate stage, encoder (picked from the
//! advisory hardware hint), muxer and sink, joined with ` ! `.

use vstd::prelude::*;
use crate::backend::RunOptions;
use crate::shell_escape::{escape, spec_escape};
use crate::strutil::{dec_str, str_eq, u64_to_dec};

verus! {

/// The encoder element the hardware hint selects; anything unrecognized
/// (or no hint) falls back to software x264.
pub open spec fn spec_encoder(hardware: Option<String>) -> Seq<char> {
    match hardware {
        Some(h) => if h@ == "vt"@ {
            "vtenc_h264"@
        } else if h@ == "nvenc"@ {
            "nvh264enc"@
        } else if h@ == "qsv"@ {
            "qsvh264enc"@
        } else if h@ == "vaapi"@ {
            "vaapih264enc"@
        } else {
            "x264enc tune=zerolatency"@
        },
        None => "x264enc tune=zerolatency"@,
    }
}

/// The whole pipeline description for the given options.
pub open spec fn spec_pipeline_string(o: RunOptions) -> Seq<char> {
    "filesrc location="@ + spec_escape(o.input@) + " ! decodebin"@ + (if o.cfr || o.fps is Some {
        " ! videorate ! video/x-raw,framerate="@ + dec_str(
            (match o.fps {
                Some(f) => f,
                None => 30,
            }) as nat,
        ) + "/1"@
    } else {
        Seq::<char>::empty()
    }) + " ! "@ + spec_encoder(o.hardware) + " ! mp4mux"@ + " ! filesink location="@ + spec_escape(
        o.output@,
    )
}

/// Builds the pipeline description the backend is launched with.
pub fn build_pipeline_string(o: &RunOptions) -> (r: String)
    ensures
        r@ == spec_pipeline_string(*o),
{
    let mut s = "filesrc location=".to_owned();
    let ei = escape(o.input.as_str());
    s.append(ei.as_str());
    s.append(" ! decodebin");
    if o.cfr || o.fps.is_some() {
        s.append(" ! videorate ! video/x-raw,framerate=");
        let fps: u32 = match o.fps {
            Some(f) => f,
            None => 30,
        };
        let d = u64_to_dec(fps as u64);
        s.append(d.as_str());
        s.append("/1");
    }
    s.append(" ! ");
    match &o.hardware {
        Some(h) => {
            if str_eq(h.as_str(), "vt") {
                s.append("vtenc_h264");
            } else if str_eq(h.as_str(), "nvenc") {
                s.append("nvh264enc");
            } else if str_eq(h.as_str(), "qsv") {
                s.append("qsvh264enc");
            } else if str_eq(h.as_str(), "vaapi") {
                s.append("vaapih264enc");
            } else {
                s.append("x264enc tune=zerolatency");
            }
        },
        None => {
            s.append("x264enc tune=zerolatency");
        },
    }
    s.append(" ! mp4mux");
    s.append(" ! filesink location=");
    let eo = escape(o.output.as_str());
    s.append(eo.as_str());
    proof {
        assert(s@ =~= spec_pipeline_string(*o));
    }
    s
}

} // verus!
