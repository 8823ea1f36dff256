//! Capability classifier: maps a discovered stream's capability descriptor to
//! a routing decision (which parser to insert, which muxer pad template to
//! request). Table-driven, deterministic, side-effect free.

use vstd::prelude::*;
use crate::strutil::{has_prefix, str_eq, str_has_prefix};

verus! {

/// What a discovered stream reports about itself: the capability family name
/// (e.g. `video/x-h264`) and the one attribute routing reads, the MPEG
/// version of an `audio/mpeg` stream.
#[derive(Debug, Clone)]
pub struct CapabilityDescriptor {
    pub family: String,
    pub mpeg_version: Option<i32>,
}

/// The bitstream parser elements a route can ask for.
#[derive(Debug, Clone, Copy, PartialEq, Eq)]
pub enum ElementKind {
    H264Parse,
    H265Parse,
    AacParse,
    Mp3Parse,
    Ac3Parse,
    Eac3Parse,
    OpusParse,
    VorbisParse,
}

/// The muxer pad templates a track can be routed to.
#[derive(Debug, Clone, Copy, PartialEq, Eq)]
pub enum PadTemplateId {
    VideoU,
    AudioU,
    SubtitleU,
}

/// The routing decision for one track. `mux_pad_template == None` means the
/// stream is unroutable and must be skipped; that is never fatal to the job.
#[derive(Debug, Clone, Copy, PartialEq, Eq)]
pub struct RouteDecision {
    pub parser: Option<ElementKind>,
    pub mux_pad_template: Option<PadTemplateId>,
}

/// Which parser a capability family needs, if any.
pub open spec fn spec_parser_for(family: Seq<char>, mpeg_version: Option<i32>) -> Option<
    ElementKind,
> {
    if family == "video/x-h264"@ {
        Some(ElementKind::H264Parse)
    } else if family == "video/x-h265"@ {
        Some(ElementKind::H265Parse)
    } else if family == "audio/mpeg"@ {
        match mpeg_version {
            Some(v) => if v == 4 {
                Some(ElementKind::AacParse)
            } else if v == 1 || v == 2 {
                Some(ElementKind::Mp3Parse)
            } else {
                None
            },
            None => None,
        }
    } else if family == "audio/x-ac3"@ {
        Some(ElementKind::Ac3Parse)
    } else if family == "audio/x-eac3"@ {
        Some(ElementKind::Eac3Parse)
    } else if family == "audio/x-opus"@ {
        Some(ElementKind::OpusParse)
    } else if family == "audio/x-vorbis"@ {
        Some(ElementKind::VorbisParse)
    } else {
        None
    }
}

/// Which muxer pad template a capability family is routed to, if any.
pub open spec fn spec_pad_template_for(family: Seq<char>) -> Option<PadTemplateId> {
    if has_prefix(family, "video/"@) {
        Some(PadTemplateId::VideoU)
    } else if has_prefix(family, "audio/"@) {
        Some(PadTemplateId::AudioU)
    } else if has_prefix(family, "subtitle/"@) || has_prefix(family, "text/"@) {
        Some(PadTemplateId::SubtitleU)
    } else {
        None
    }
}

/// The full routing decision for a descriptor.
pub open spec fn spec_classify(family: Seq<char>, mpeg_version: Option<i32>) -> RouteDecision {
    RouteDecision {
        parser: spec_parser_for(family, mpeg_version),
        mux_pad_template: spec_pad_template_for(family),
    }
}

/// The parser element, if any, that ensures the muxer gets the right
/// bitstream for this descriptor.
pub fn parser_for_caps(d: &CapabilityDescriptor) -> (r: Option<ElementKind>)
    ensures
        r == spec_parser_for(d.family@, d.mpeg_version),
{
    let f = d.family.as_str();
    if str_eq(f, "video/x-h264") {
        Some(ElementKind::H264Parse)
    } else if str_eq(f, "video/x-h265") {
        Some(ElementKind::H265Parse)
    } else if str_eq(f, "audio/mpeg") {
        match d.mpeg_version {
            Some(v) => if v == 4 {
                Some(ElementKind::AacParse)
            } else if v == 1 || v == 2 {
                Some(ElementKind::Mp3Parse)
            } else {
                None
            },
            None => None,
        }
    } else if str_eq(f, "audio/x-ac3") {
        Some(ElementKind::Ac3Parse)
    } else if str_eq(f, "audio/x-eac3") {
        Some(ElementKind::Eac3Parse)
    } else if str_eq(f, "audio/x-opus") {
        Some(ElementKind::OpusParse)
    } else if str_eq(f, "audio/x-vorbis") {
        Some(ElementKind::VorbisParse)
    } else {
        None
    }
}

/// The muxer pad template requested for this capability family.
pub fn mux_pad_template_for(family: &str) -> (r: Option<PadTemplateId>)
    ensures
        r == spec_pad_template_for(family@),
{
    if str_has_prefix(family, "video/") {
        Some(PadTemplateId::VideoU)
    } else if str_has_prefix(family, "audio/") {
        Some(PadTemplateId::AudioU)
    } else if str_has_prefix(family, "subtitle/") || str_has_prefix(family, "text/") {
        Some(PadTemplateId::SubtitleU)
    } else {
        None
    }
}

/// Classifies a capability descriptor into a routing decision.
pub fn classify(d: &CapabilityDescriptor) -> (r: RouteDecision)
    ensures
        r == spec_classify(d.family@, d.mpeg_version),
{
    RouteDecision { parser: parser_for_caps(d), mux_pad_template: mux_pad_template_for(d.family.as_str()) }
}

/// Classification is deterministic: equal descriptors always yield equal
/// routing decisions, however often they are classified.
pub proof fn lemma_classify_deterministic(
    f1: Seq<char>,
    v1: Option<i32>,
    f2: Seq<char>,
    v2: Option<i32>,
)
    requires
        f1 == f2,
        v1 == v2,
    ensures
        spec_classify(f1, v1) == spec_classify(f2, v2),
{
}

/// A capability family outside the video, audio, subtitle and text
/// namespaces gets no muxer pad template: such a stream is unroutable.
pub proof fn lemma_unknown_family_unroutable(family: Seq<char>, mpeg_version: Option<i32>)
    requires
        !has_prefix(family, "video/"@),
        !has_prefix(family, "audio/"@),
        !has_prefix(family, "subtitle/"@),
        !has_prefix(family, "text/"@),
    ensures
        spec_classify(family, mpeg_version).mux_pad_template is None,
{
}

/// Whenever a route asks for a parser, the stream is also routable: every
/// family in the parser table lies in the video or audio namespace.
pub proof fn lemma_parser_implies_routable(family: Seq<char>, mpeg_version: Option<i32>)
    requires
        spec_classify(family, mpeg_version).parser is Some,
    ensures
        spec_classify(family, mpeg_version).mux_pad_template is Some,
{
    reveal_strlit("video/x-h264");
    reveal_strlit("video/x-h265");
    reveal_strlit("audio/mpeg");
    reveal_strlit("audio/x-ac3");
    reveal_strlit("audio/x-eac3");
    reveal_strlit("audio/x-opus");
    reveal_strlit("audio/x-vorbis");
    reveal_strlit("video/");
    reveal_strlit("audio/");
    if family == "video/x-h264"@ || family == "video/x-h265"@ {
        assert(family.subrange(0, 6) =~= "video/"@);
    } else {
        assert(family.subrange(0, 6) =~= "audio/"@);
    }
}

} // verus!
