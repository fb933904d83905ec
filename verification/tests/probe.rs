#![allow(unused_imports, dead_code)]

use concordance::builder::NegotiatorBuilder;
use concordance::display::{
    Cea861Capabilities, ColorBitDepth, ColorBitDepths, ColorCapabilities, ColorFormat, ColorimetryBlock,
    ColorimetryFlags, DigitalColorEncoding, DisplayCapabilities, HdmiDscMaxSlices, HdmiForumDsc, HdmiForumFrl,
    HdmiForumSinkCap, HdmiVsdb, HdmiVsdbFlags, HdrStaticMetadata, StereoFormat, SyncType, TimingSource, VideoMode,
};
use concordance::engine::checks::{
    BitDepthCheck, BuiltinCheck, ColorEncodingCheck, DscCheck, FrlCeilingCheck, PixelClockCheck, RefreshRateCheck,
    TmdsClockCheck,
};
use concordance::engine::rule::{ConstraintRule, Layered, TaggingAdapter};
use concordance::engine::{CheckResult, ConstraintEngine, DefaultConstraintEngine};
use concordance::enumerator::{CandidateEnumerator, DefaultEnumerator, SliceEnumerator};
use concordance::output::config::NegotiatedConfig;
use concordance::output::trace::{Adjustment, DecisionStep, ReasoningTrace};
use concordance::output::warning::{LimitSource, TaggedViolation, Violation, Warning};
use concordance::probe::is_config_viable;
use concordance::ranker::policy::NegotiationPolicy;
use concordance::ranker::{ConfigRanker, DefaultRanker};
use concordance::types::{
    sink_capabilities_from_display, CableCapabilities, CandidateConfig, DscCapabilities, HdmiSpec, QuirkFlags,
    SinkBuildWarning, SinkCapabilities, SourceCapabilities, SupportedModes,
};

fn mode(refresh_rate: u16) -> VideoMode {
    VideoMode::new(1920, 1080, refresh_rate, false)
}

fn config(
    mode: &'_ VideoMode,
    encoding: ColorFormat,
    depth: ColorBitDepth,
) -> CandidateConfig<'_> {
    CandidateConfig {
        mode,
        color_encoding: encoding,
        bit_depth: depth,
        frl_rate: HdmiForumFrl::NotSupported,
        dsc_enabled: false,
    }
}

/// Sink with RGB 8 bpc and a 24–144 Hz refresh range.
fn typical_sink() -> SinkCapabilities {
    let mut caps = ColorCapabilities::default();
    caps.rgb444 = ColorBitDepths::only(ColorBitDepth::Depth8)
        .with(ColorBitDepth::Depth10)
        .with(ColorBitDepth::Depth12);
    caps.ycbcr420 = ColorBitDepths::only(ColorBitDepth::Depth8).with(ColorBitDepth::Depth10);
    SinkCapabilities {
        color_capabilities: caps,
        min_v_rate: Some(24),
        max_v_rate: Some(144),
        ..Default::default()
    }
}

fn probe(
    sink: &SinkCapabilities,
    mode: &VideoMode,
    encoding: ColorFormat,
    depth: ColorBitDepth,
) -> Result<(), Vec<Violation>> {
    is_config_viable(
        sink,
        &SourceCapabilities::default(),
        &CableCapabilities::default(),
        &config(mode, encoding, depth),
    )
    .map(|_| ())
}

#[test]
fn viable_config_accepted() {
    let m = mode(60);
    assert!(
        probe(
            &typical_sink(),
            &m,
            ColorFormat::Rgb444,
            ColorBitDepth::Depth8
        )
        .is_ok()
    );
}

#[test]
fn deep_color_accepted_when_supported() {
    let m = mode(60);
    assert!(
        probe(
            &typical_sink(),
            &m,
            ColorFormat::Rgb444,
            ColorBitDepth::Depth10
        )
        .is_ok()
    );
    assert!(
        probe(
            &typical_sink(),
            &m,
            ColorFormat::Rgb444,
            ColorBitDepth::Depth12
        )
        .is_ok()
    );
}

#[test]
fn probe_unsupported_encoding_rejected() {
    let m = mode(60);
    let result = probe(
        &typical_sink(),
        &m,
        ColorFormat::YCbCr444,
        ColorBitDepth::Depth8,
    );
    assert!(
        result
            .unwrap_err()
            .iter()
            .any(|v| matches!(v, Violation::ColorEncodingUnsupported))
    );
}

#[test]
fn probe_unsupported_depth_rejected() {
    let m = mode(60);
    let result = probe(
        &typical_sink(),
        &m,
        ColorFormat::Rgb444,
        ColorBitDepth::Depth16,
    );
    assert!(
        result
            .unwrap_err()
            .iter()
            .any(|v| matches!(v, Violation::BitDepthUnsupported))
    );
}

#[test]
fn refresh_rate_out_of_range_rejected() {
    let m = mode(240);
    let result = probe(
        &typical_sink(),
        &m,
        ColorFormat::Rgb444,
        ColorBitDepth::Depth8,
    );
    assert!(
        result
            .unwrap_err()
            .iter()
            .any(|v| matches!(v, Violation::RefreshRateOutOfRange { .. }))
    );
}

#[test]
fn multiple_violations_all_reported() {
    // Both encoding and depth are wrong; alloc mode collects all.
    let m = mode(240); // also out of range
    let violations = probe(
        &typical_sink(),
        &m,
        ColorFormat::YCbCr444,
        ColorBitDepth::Depth16,
    )
    .unwrap_err();
    assert!(
        violations
            .iter()
            .any(|v| matches!(v, Violation::RefreshRateOutOfRange { .. }))
    );
    assert!(
        violations
            .iter()
            .any(|v| matches!(v, Violation::ColorEncodingUnsupported))
    );
}

#[test]
fn no_refresh_bounds_skips_refresh_check() {
    // A sink with color capabilities declared but no refresh rate range
    // does not reject a config on timing grounds.
    let mut caps = ColorCapabilities::default();
    caps.rgb444 = ColorBitDepths::only(ColorBitDepth::Depth8);
    let sink = SinkCapabilities {
        color_capabilities: caps,
        min_v_rate: None,
        max_v_rate: None,
        ..Default::default()
    };
    let m = mode(240);
    assert!(probe(&sink, &m, ColorFormat::Rgb444, ColorBitDepth::Depth8).is_ok());
}
