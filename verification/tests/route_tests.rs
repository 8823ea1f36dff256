use mmx_core::route::{classify, mux_pad_template_for, parser_for_caps, CapabilityDescriptor,
    ElementKind, PadTemplateId, RouteDecision};

fn desc(family: &str, mpeg_version: Option<i32>) -> CapabilityDescriptor {
    CapabilityDescriptor { family: family.to_string(), mpeg_version }
}

#[test]
fn scenario_h264_route() {
    let d = classify(&desc("video/x-h264", None));
    assert_eq!(d.parser, Some(ElementKind::H264Parse));
    assert_eq!(d.mux_pad_template, Some(PadTemplateId::VideoU));
}

#[test]
fn scenario_aac_route() {
    let d = classify(&desc("audio/mpeg", Some(4)));
    assert_eq!(d.parser, Some(ElementKind::AacParse));
    assert_eq!(d.mux_pad_template, Some(PadTemplateId::AudioU));
}

#[test]
fn mpeg_versions_route_to_mp3_or_nothing() {
    assert_eq!(classify(&desc("audio/mpeg", Some(1))).parser, Some(ElementKind::Mp3Parse));
    assert_eq!(classify(&desc("audio/mpeg", Some(2))).parser, Some(ElementKind::Mp3Parse));
    assert_eq!(classify(&desc("audio/mpeg", Some(7))).parser, None);
    assert_eq!(classify(&desc("audio/mpeg", None)).parser, None);
    // still routed to the audio template, best effort
    assert_eq!(classify(&desc("audio/mpeg", None)).mux_pad_template, Some(PadTemplateId::AudioU));
}

#[test]
fn parser_table_rows() {
    assert_eq!(parser_for_caps(&desc("video/x-h265", None)), Some(ElementKind::H265Parse));
    assert_eq!(parser_for_caps(&desc("audio/x-ac3", None)), Some(ElementKind::Ac3Parse));
    assert_eq!(parser_for_caps(&desc("audio/x-eac3", None)), Some(ElementKind::Eac3Parse));
    assert_eq!(parser_for_caps(&desc("audio/x-opus", None)), Some(ElementKind::OpusParse));
    assert_eq!(parser_for_caps(&desc("audio/x-vorbis", None)), Some(ElementKind::VorbisParse));
}

#[test]
fn passthrough_families_keep_their_template() {
    let v = classify(&desc("video/x-vp9", None));
    assert_eq!(v.parser, None);
    assert_eq!(v.mux_pad_template, Some(PadTemplateId::VideoU));
    let s = classify(&desc("subtitle/x-kate", None));
    assert_eq!(s.parser, None);
    assert_eq!(s.mux_pad_template, Some(PadTemplateId::SubtitleU));
    let t = classify(&desc("text/x-raw", None));
    assert_eq!(t.mux_pad_template, Some(PadTemplateId::SubtitleU));
}

#[test]
fn scenario_unroutable_family() {
    let d = classify(&desc("application/x-custom", None));
    assert_eq!(d, RouteDecision { parser: None, mux_pad_template: None });
}

#[test]
fn unknown_families_get_no_template() {
    assert_eq!(mux_pad_template_for("application/x-id3"), None);
    assert_eq!(mux_pad_template_for("image/png"), None);
    assert_eq!(mux_pad_template_for(""), None);
}

#[test]
fn classify_is_deterministic() {
    let a = classify(&desc("video/x-h264", None));
    let b = classify(&desc("video/x-h264", None));
    assert_eq!(a, b);
    let c = classify(&desc("audio/mpeg", Some(4)));
    let d = classify(&desc("audio/mpeg", Some(4)));
    assert_eq!(c, d);
}
