//! Environment doctor: assembles the report about the backend toolchain.
//! The caller gathers the raw facts (installed version, search results,
//! environment variables); this module decides which hints they earn.

use vstd::prelude::*;

verus! {

/// What the environment inspection found, with remediation hints.
#[derive(Debug, Clone)]
pub struct DoctorReport {
    pub gst_version: Option<String>,
    pub gst_plugin_scanner: Option<String>,
    pub gi_typelib_path_ok: bool,
    pub pkg_config_path_set: bool,
    pub homebrew_prefix: Option<String>,
    pub hints: Vec<String>,
}

/// The hints the findings earn, in order: one for a missing plugin
/// scanner, one for an unset GI_TYPELIB_PATH, one for an unset
/// PKG_CONFIG_PATH.
pub open spec fn spec_hints(scanner: Option<String>, gi_ok: bool, pkg_ok: bool) -> Seq<Seq<char>> {
    (if scanner is None {
        seq![
            "GST plugin scanner not found. If using Homebrew: `brew reinstall gstreamer` and export GST_PLUGIN_SCANNER from `brew --prefix gstreamer`/libexec/gstreamer-1.0/gst-plugin-scanner"@,
        ]
    } else {
        Seq::<Seq<char>>::empty()
    }) + (if gi_ok {
        Seq::<Seq<char>>::empty()
    } else {
        seq![
            "GI_TYPELIB_PATH not set. On macOS/Homebrew: export GI_TYPELIB_PATH=\"$(brew --prefix)/lib/girepository-1.0:$GI_TYPELIB_PATH\""@,
        ]
    }) + (if pkg_ok {
        Seq::<Seq<char>>::empty()
    } else {
        seq![
            "PKG_CONFIG_PATH not set. Export Homebrew paths for GStreamer .pc files before building."@,
        ]
    })
}

/// Builds the doctor report from the gathered facts; each missing piece
/// of the toolchain earns exactly one hint.
pub fn doctor_report(
    gst_version: Option<String>,
    gst_plugin_scanner: Option<String>,
    gi_typelib_path_ok: bool,
    pkg_config_path_set: bool,
    homebrew_prefix: Option<String>,
) -> (r: DoctorReport)
    ensures
        r.gst_version == gst_version,
        r.gst_plugin_scanner == gst_plugin_scanner,
        r.gi_typelib_path_ok == gi_typelib_path_ok,
        r.pkg_config_path_set == pkg_config_path_set,
        r.homebrew_prefix == homebrew_prefix,
        r.hints.deep_view() == spec_hints(gst_plugin_scanner, gi_typelib_path_ok, pkg_config_path_set),
{
    let mut hints: Vec<String> = Vec::new();
    if gst_plugin_scanner.is_none() {
        hints.push(
            "GST plugin scanner not found. If using Homebrew: `brew reinstall gstreamer` and export GST_PLUGIN_SCANNER from `brew --prefix gstreamer`/libexec/gstreamer-1.0/gst-plugin-scanner".to_owned(),
        );
    }
    if !gi_typelib_path_ok {
        hints.push(
            "GI_TYPELIB_PATH not set. On macOS/Homebrew: export GI_TYPELIB_PATH=\"$(brew --prefix)/lib/girepository-1.0:$GI_TYPELIB_PATH\"".to_owned(),
        );
    }
    if !pkg_config_path_set {
        hints.push(
            "PKG_CONFIG_PATH not set. Export Homebrew paths for GStreamer .pc files before building.".to_owned(),
        );
    }
    proof {
        assert(hints.deep_view() =~= spec_hints(
            gst_plugin_scanner,
            gi_typelib_path_ok,
            pkg_config_path_set,
        ));
    }
    DoctorReport {
        gst_version,
        gst_plugin_scanner,
        gi_typelib_path_ok,
        pkg_config_path_set,
        homebrew_prefix,
        hints,
    }
}

} // verus!
