#![allow(unused_imports, dead_code)]

use concordance::builder::NegotiatorBuilder;
use concordance::display::{
    Cea861Capabilities, ColorBitDepth, ColorBitDepths, ColorCapabilities, ColorFormat, ColorimetryBlock,
    ColorimetryFlags, DigitalColorEncoding, DisplayCapabilities, HdmiDscMaxSlices, HdmiForumDsc, HdmiForumFrl,
    HdmiForumSinkCap, HdmiVsdb, HdmiVsdbFlags, HdrStaticMetadata, StereoFormat, SyncType, TimingSource, VideoMode,
};
use concordance::engine::checks::{
    BitDepthCheck, BuiltinCheck, ColorEncodingCheck, DscCheck, FrlCeilingCheck, PixelClockCheck, RefreshRateCheck,
    TmdsClockCheck,
};
use concordance::engine::rule::{ConstraintRule, Layered, TaggingAdapter};
use concordance::engine::{CheckResult, ConstraintEngine, DefaultConstraintEngine};
use concordance::enumerator::{CandidateEnumerator, DefaultEnumerator, SliceEnumerator};
use concordance::output::config::NegotiatedConfig;
use concordance::output::trace::{Adjustment, DecisionStep, ReasoningTrace};
use concordance::output::warning::{LimitSource, TaggedViolation, Violation, Warning};
use concordance::probe::is_config_viable;
use concordance::ranker::policy::NegotiationPolicy;
use concordance::ranker::{ConfigRanker, DefaultRanker};
use concordance::types::{
    sink_capabilities_from_display, CableCapabilities, CandidateConfig, DscCapabilities, HdmiSpec, QuirkFlags,
    SinkBuildWarning, SinkCapabilities, SourceCapabilities, SupportedModes,
};


/// The CTA-861 timing of VIC 16: 1920×1080p at 60 Hz.
fn vic16() -> VideoMode {
    VideoMode::new(1920, 1080, 60, false)
        .with_detailed_timing(
            148500,
            88,
            44,
            4,
            5,
            0,
            0,
            StereoFormat::Normal,
            Some(SyncType::DigitalSeparate { v_sync_positive: true, h_sync_positive: true }),
        )
        .with_source(TimingSource::Vic(16))
}

/// The CTA-861 timing of VIC 97: 3840×2160p at 60 Hz.
fn vic97() -> VideoMode {
    VideoMode::new(3840, 2160, 60, false)
        .with_detailed_timing(
            594000,
            176,
            88,
            8,
            10,
            0,
            0,
            StereoFormat::Normal,
            Some(SyncType::DigitalSeparate { v_sync_positive: true, h_sync_positive: true }),
        )
        .with_source(TimingSource::Vic(97))
}

// ── helpers ───────────────────────────────────────────────────────────────

/// Minimal `HdmiForumSinkCap` identified by its `max_tmds_rate_mhz` for easy
/// equality checks in tests.
fn hf_sink(max_tmds_rate_mhz: u16) -> HdmiForumSinkCap {
    HdmiForumSinkCap::new(
        1,
        max_tmds_rate_mhz,
        false,
        false,
        false,
        false,
        false,
        false,
        false,
        false,
        HdmiForumFrl::NotSupported,
        false,
        false,
        false,
        false,
        false,
        false,
        false,
        false,
        false,
        false,
        false,
        None,
        None,
        None,
    )
}

/// Minimal `HdmiVsdb`.
fn vsdb() -> HdmiVsdb {
    HdmiVsdb::new(0, HdmiVsdbFlags::empty(), None, None, None, None, None)
}

/// Attaches a `Cea861Capabilities` to a `DisplayCapabilities` at tag `0x02`.
fn with_cea(caps: &mut DisplayCapabilities, cea: Cea861Capabilities) {
    caps.cea861 = Some(cea);
}

// ── tests ─────────────────────────────────────────────────────────────────

/// With no CEA extension block attached, the function returns defaults with no warnings.
#[test]
fn no_cea_extension_yields_defaults() {
    let caps = DisplayCapabilities::default();
    let (sink, warnings) = sink_capabilities_from_display(&caps);
    assert!(warnings.is_empty());
    assert!(sink.hdmi_forum.is_none());
    assert!(sink.hdmi_vsdb.is_none());
    assert!(sink.hdr_static.is_none());
    assert!(sink.colorimetry.is_none());
}

/// Scalar range-limit fields are copied directly from the input.
#[test]
fn scalar_fields_are_copied() {
    let mut caps = DisplayCapabilities::default();
    caps.max_pixel_clock_mhz = Some(300);
    caps.min_v_rate = Some(24);
    caps.max_v_rate = Some(144);
    let (sink, _) = sink_capabilities_from_display(&caps);
    assert_eq!(sink.max_pixel_clock_mhz, Some(300));
    assert_eq!(sink.min_v_rate, Some(24));
    assert_eq!(sink.max_v_rate, Some(144));
}

/// Unique modes are accepted without any warning.
#[test]
fn unique_modes_produce_no_warning() {
    let mut caps = DisplayCapabilities::default();
    caps.supported_modes = vec![
        VideoMode::new(1920, 1080, 60, false),
        VideoMode::new(3840, 2160, 60, false),
    ];
    let (sink, warnings) = sink_capabilities_from_display(&caps);
    assert!(warnings.is_empty());
    assert_eq!(sink.supported_modes.as_slice().len(), 2);
}

/// A duplicate mode in the input triggers a `DuplicateModes` warning and the
/// deduplicated list contains only the first occurrence.
#[test]
fn duplicate_modes_produce_warning() {
    let mode = VideoMode::new(1920, 1080, 60, false);
    let mut caps = DisplayCapabilities::default();
    caps.supported_modes = vec![mode.clone(), mode.clone()];
    let (sink, warnings) = sink_capabilities_from_display(&caps);
    assert_eq!(sink.supported_modes.as_slice().len(), 1);
    assert!(
        warnings
            .iter()
            .any(|w| matches!(w, SinkBuildWarning::DuplicateModes(_))),
        "expected a DuplicateModes warning"
    );
}

/// When the CEA block carries an HF-SCDB, it is used as `hdmi_forum`.
#[test]
fn cea_hf_scdb_populates_hdmi_forum() {
    let mut caps = DisplayCapabilities::default();
    let mut cea = Cea861Capabilities::new();
    cea.hf_scdb = Some(hf_sink(600));
    with_cea(&mut caps, cea);
    let (sink, _) = sink_capabilities_from_display(&caps);
    assert!(sink.hdmi_forum.is_some());
    assert_eq!(sink.hdmi_forum.as_ref().unwrap().max_tmds_rate_mhz, 600);
}

/// When only HF-VSDB is present (no HF-SCDB), it is used as `hdmi_forum`.
#[test]
fn cea_hf_vsdb_used_when_scdb_absent() {
    let mut caps = DisplayCapabilities::default();
    let mut cea = Cea861Capabilities::new();
    cea.hf_vsdb = Some(hf_sink(340));
    with_cea(&mut caps, cea);
    let (sink, _) = sink_capabilities_from_display(&caps);
    assert!(sink.hdmi_forum.is_some());
    assert_eq!(sink.hdmi_forum.as_ref().unwrap().max_tmds_rate_mhz, 340);
}

/// When both HF-SCDB and HF-VSDB are present, HF-SCDB (HDMI 2.1) takes precedence.
#[test]
fn hf_scdb_preferred_over_hf_vsdb() {
    let mut caps = DisplayCapabilities::default();
    let mut cea = Cea861Capabilities::new();
    cea.hf_scdb = Some(hf_sink(600)); // HDMI 2.1 — should win
    cea.hf_vsdb = Some(hf_sink(340)); // HDMI 2.0
    with_cea(&mut caps, cea);
    let (sink, _) = sink_capabilities_from_display(&caps);
    assert_eq!(
        sink.hdmi_forum.as_ref().unwrap().max_tmds_rate_mhz,
        600,
        "HF-SCDB must be preferred over HF-VSDB"
    );
}

/// An HDMI 1.x VSDB in the CEA block is copied to `hdmi_vsdb`.
#[test]
fn cea_hdmi_vsdb_is_propagated() {
    let mut caps = DisplayCapabilities::default();
    let mut cea = Cea861Capabilities::new();
    cea.hdmi_vsdb = Some(vsdb());
    with_cea(&mut caps, cea);
    let (sink, _) = sink_capabilities_from_display(&caps);
    assert!(sink.hdmi_vsdb.is_some());
}

/// A non-empty `y420_vics` list causes YCbCr 4:2:0 at 8 bpc to be added to
/// the color capabilities, even when no HF-SCDB deep-color flags are set.
#[test]
fn y420_vics_adds_baseline_ycbcr420() {
    let mut caps = DisplayCapabilities::default();
    let mut cea = Cea861Capabilities::new();
    cea.y420_vics = vec![96]; // 4K@60 VIC
    with_cea(&mut caps, cea);
    let (sink, _) = sink_capabilities_from_display(&caps);
    assert!(
        sink.color_capabilities
            .ycbcr420
            .supports(ColorBitDepth::Depth8),
        "y420_vics must add YCbCr 4:2:0 8 bpc baseline"
    );
}

/// A non-empty `y420_capability_map` also triggers the baseline YCbCr 4:2:0 addition.
#[test]
fn y420_capability_map_adds_baseline_ycbcr420() {
    let mut caps = DisplayCapabilities::default();
    let mut cea = Cea861Capabilities::new();
    cea.y420_capability_map = vec![0xFF];
    with_cea(&mut caps, cea);
    let (sink, _) = sink_capabilities_from_display(&caps);
    assert!(
        sink.color_capabilities
            .ycbcr420
            .supports(ColorBitDepth::Depth8),
        "y420_capability_map must add YCbCr 4:2:0 8 bpc baseline"
    );
}

/// HDR static metadata in the CEA block is propagated to `hdr_static`.
#[test]
fn hdr_static_metadata_is_propagated() {
    let mut caps = DisplayCapabilities::default();
    let mut cea = Cea861Capabilities::new();
    cea.hdr_static_metadata = Some(HdrStaticMetadata::new(
        0,
        0,
        None,
        None,
        None,
    ));
    with_cea(&mut caps, cea);
    let (sink, _) = sink_capabilities_from_display(&caps);
    assert!(sink.hdr_static.is_some());
}

/// VICs in `y420_vics` are resolved to `VideoMode`s and stored in
/// `ycbcr420_exclusive_modes`. VIC 97 is 4K@60 Hz.
#[test]
fn y420_vics_populates_exclusive_modes() {
    let mut caps = DisplayCapabilities::default();
    let mut cea = Cea861Capabilities::new();
    cea.y420_vics = vec![97]; // 4K@60 Hz
    with_cea(&mut caps, cea);
    let (sink, _) = sink_capabilities_from_display(&caps);
    let expected = vic97();
    assert!(
        sink.ycbcr420_exclusive_modes.as_slice().contains(&expected),
        "VIC 97 must appear in ycbcr420_exclusive_modes"
    );
    assert!(
        sink.ycbcr420_capable_modes.as_slice().is_empty(),
        "ycbcr420_capable_modes must be empty when only y420_vics is set"
    );
}

/// A set bit N in `y420_capability_map` resolves through `vics[N]` to a
/// `VideoMode` stored in `ycbcr420_capable_modes`.
#[test]
fn y420_capability_map_populates_capable_modes() {
    let mut caps = DisplayCapabilities::default();
    let mut cea = Cea861Capabilities::new();
    // Put VIC 16 (1080p@60) at index 0 in the SVD list.
    cea.vics = vec![(16, true)];
    // Bit 0 of byte 0 set → vics[0] = VIC 16 supports 4:2:0 additionally.
    cea.y420_capability_map = vec![0b0000_0001];
    with_cea(&mut caps, cea);
    let (sink, _) = sink_capabilities_from_display(&caps);
    let expected = vic16();
    assert!(
        sink.ycbcr420_capable_modes.as_slice().contains(&expected),
        "VIC 16 must appear in ycbcr420_capable_modes"
    );
    assert!(
        sink.ycbcr420_exclusive_modes.as_slice().is_empty(),
        "ycbcr420_exclusive_modes must be empty when only y420_capability_map is set"
    );
}

/// A clear bit in `y420_capability_map` must not produce an entry.
#[test]
fn y420_capability_map_clear_bit_excluded() {
    let mut caps = DisplayCapabilities::default();
    let mut cea = Cea861Capabilities::new();
    cea.vics = vec![(16, true), (97, false)];
    // Bit 0 clear, bit 1 set → only vics[1] = VIC 97 is 4:2:0 capable.
    cea.y420_capability_map = vec![0b0000_0010];
    with_cea(&mut caps, cea);
    let (sink, _) = sink_capabilities_from_display(&caps);
    let vic16 = vic16();
    let vic97 = vic97();
    assert!(
        !sink.ycbcr420_capable_modes.as_slice().contains(&vic16),
        "VIC 16 (bit clear) must not appear"
    );
    assert!(
        sink.ycbcr420_capable_modes.as_slice().contains(&vic97),
        "VIC 97 (bit set) must appear"
    );
}

/// Colorimetry data in the CEA block is propagated to `colorimetry`.
#[test]
fn colorimetry_is_propagated() {
    let mut caps = DisplayCapabilities::default();
    let mut cea = Cea861Capabilities::new();
    cea.colorimetry = Some(ColorimetryBlock::new(ColorimetryFlags::empty(), 0));
    with_cea(&mut caps, cea);
    let (sink, _) = sink_capabilities_from_display(&caps);
    assert!(sink.colorimetry.is_some());
}

/// `color_capabilities` reflects the VSDB deep-color flags when a VSDB is present.
#[test]
fn vsdb_deep_color_flags_populate_color_capabilities() {
    let mut caps = DisplayCapabilities::default();
    caps.digital_color_encoding = Some(DigitalColorEncoding::Rgb444);
    let mut cea = Cea861Capabilities::new();
    cea.hdmi_vsdb = Some(HdmiVsdb::new(
        0,
        HdmiVsdbFlags::from_bits_retain(HdmiVsdbFlags::DC_30BIT | HdmiVsdbFlags::DC_36BIT),
        None,
        None,
        None,
        None,
        None,
    ));
    with_cea(&mut caps, cea);
    let (sink, _) = sink_capabilities_from_display(&caps);
    assert!(
        sink.color_capabilities
            .rgb444
            .supports(ColorBitDepth::Depth10)
    );
    assert!(
        sink.color_capabilities
            .rgb444
            .supports(ColorBitDepth::Depth12)
    );
    assert!(
        !sink
            .color_capabilities
            .rgb444
            .supports(ColorBitDepth::Depth16)
    );
}
