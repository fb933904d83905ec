#![allow(unused_imports, dead_code)]

use concordance::builder::NegotiatorBuilder;
use concordance::display::{
    Cea861Capabilities, ColorBitDepth, ColorBitDepths, ColorCapabilities, ColorFormat, ColorimetryBlock,
    ColorimetryFlags, DigitalColorEncoding, DisplayCapabilities, HdmiDscMaxSlices, HdmiForumDsc, HdmiForumFrl,
    HdmiForumSinkCap, HdmiVsdb, HdmiVsdbFlags, HdrStaticMetadata, StereoFormat, SyncType, TimingSource, VideoMode,
};
use concordance::engine::checks::{
    BitDepthCheck, BuiltinCheck, ColorEncodingCheck, DscCheck, FrlCeilingCheck, PixelClockCheck, RefreshRateCheck,
    TmdsClockCheck,
};
use concordance::engine::rule::{ConstraintRule, Layered, TaggingAdapter};
use concordance::engine::{CheckResult, ConstraintEngine, DefaultConstraintEngine};
use concordance::enumerator::{CandidateEnumerator, DefaultEnumerator, SliceEnumerator};
use concordance::output::config::NegotiatedConfig;
use concordance::output::trace::{Adjustment, DecisionStep, ReasoningTrace};
use concordance::output::warning::{LimitSource, TaggedViolation, Violation, Warning};
use concordance::probe::is_config_viable;
use concordance::ranker::policy::NegotiationPolicy;
use concordance::ranker::{ConfigRanker, DefaultRanker};
use concordance::types::{
    sink_capabilities_from_display, CableCapabilities, CandidateConfig, DscCapabilities, HdmiSpec, QuirkFlags,
    SinkBuildWarning, SinkCapabilities, SourceCapabilities, SupportedModes,
};

fn mode() -> VideoMode {
    VideoMode::new(3840, 2160, 60, false)
}

fn config<'a>(mode: &'a VideoMode, frl_rate: HdmiForumFrl) -> CandidateConfig<'a> {
    CandidateConfig {
        mode,
        color_encoding: ColorFormat::Rgb444,
        bit_depth: ColorBitDepth::Depth8,
        frl_rate,
        dsc_enabled: false,
    }
}

fn hf_sink(max_frl_rate: HdmiForumFrl) -> HdmiForumSinkCap {
    HdmiForumSinkCap::new(
        1,
        0,
        false,
        false,
        false,
        false,
        false,
        false,
        false,
        false,
        max_frl_rate,
        false,
        false,
        false,
        false,
        false,
        false,
        false,
        false,
        false,
        false,
        false,
        None,
        None,
        None,
    )
}

fn sink_with_frl(max_frl_rate: HdmiForumFrl) -> SinkCapabilities {
    SinkCapabilities {
        hdmi_forum: Some(hf_sink(max_frl_rate)),
        ..Default::default()
    }
}

fn source_with_frl(max_frl_rate: HdmiForumFrl) -> SourceCapabilities {
    SourceCapabilities {
        max_frl_rate,
        ..Default::default()
    }
}

fn cable_with_frl(max_frl_rate: HdmiForumFrl) -> CableCapabilities {
    CableCapabilities {
        max_frl_rate,
        ..CableCapabilities::unconstrained()
    }
}

fn check(
    sink: &SinkCapabilities,
    source: &SourceCapabilities,
    cable: &CableCapabilities,
    frl_rate: HdmiForumFrl,
) -> Option<Violation> {
    let m = mode();
    ConstraintRule::<Violation>::check(
        &FrlCeilingCheck,
        sink,
        source,
        cable,
        &config(&m, frl_rate),
    )
}

#[test]
fn tmds_candidate_skips_check() {
    // NotSupported means TMDS transport; FRL ceiling is irrelevant.
    let sink = SinkCapabilities::default(); // no HF-SCDB → ceiling would be 0
    assert!(
        check(
            &sink,
            &SourceCapabilities::default(),
            &CableCapabilities::default(),
            HdmiForumFrl::NotSupported
        )
        .is_none()
    );
}

#[test]
fn frl_within_all_ceilings_passes() {
    let sink = sink_with_frl(HdmiForumFrl::Rate12Gbps4Lanes);
    let source = source_with_frl(HdmiForumFrl::Rate12Gbps4Lanes);
    assert!(
        check(
            &sink,
            &source,
            &CableCapabilities::unconstrained(),
            HdmiForumFrl::Rate6Gbps4Lanes
        )
        .is_none()
    );
}

#[test]
fn frl_exceeds_sink_ceiling_rejected() {
    let sink = sink_with_frl(HdmiForumFrl::Rate6Gbps3Lanes);
    let source = source_with_frl(HdmiForumFrl::Rate12Gbps4Lanes);
    assert!(matches!(
        check(
            &sink,
            &source,
            &CableCapabilities::unconstrained(),
            HdmiForumFrl::Rate8Gbps4Lanes
        ),
        Some(Violation::FrlRateExceeded { .. })
    ));
}

#[test]
fn frl_exceeds_source_ceiling_rejected() {
    let sink = sink_with_frl(HdmiForumFrl::Rate12Gbps4Lanes);
    let source = source_with_frl(HdmiForumFrl::Rate6Gbps3Lanes);
    assert!(matches!(
        check(
            &sink,
            &source,
            &CableCapabilities::unconstrained(),
            HdmiForumFrl::Rate8Gbps4Lanes
        ),
        Some(Violation::FrlRateExceeded { .. })
    ));
}

#[test]
fn frl_exceeds_cable_ceiling_rejected() {
    let sink = sink_with_frl(HdmiForumFrl::Rate12Gbps4Lanes);
    let source = source_with_frl(HdmiForumFrl::Rate12Gbps4Lanes);
    let cable = cable_with_frl(HdmiForumFrl::Rate6Gbps4Lanes);
    assert!(matches!(
        check(&sink, &source, &cable, HdmiForumFrl::Rate10Gbps4Lanes),
        Some(Violation::FrlRateExceeded { .. })
    ));
}

#[test]
fn no_hf_scdb_rejects_any_frl_request() {
    // Sink without HF-SCDB has effective FRL ceiling of 0.
    let sink = SinkCapabilities::default();
    let source = source_with_frl(HdmiForumFrl::Rate12Gbps4Lanes);
    assert!(matches!(
        check(
            &sink,
            &source,
            &CableCapabilities::unconstrained(),
            HdmiForumFrl::Rate3Gbps3Lanes
        ),
        Some(Violation::FrlRateExceeded { .. })
    ));
}

#[test]
fn cable_is_binding_constraint() {
    // Sink and source support 12G; cable only supports 6G 4-lane.
    // A request for 8G must be rejected.
    let sink = sink_with_frl(HdmiForumFrl::Rate12Gbps4Lanes);
    let source = source_with_frl(HdmiForumFrl::Rate12Gbps4Lanes);
    let cable = cable_with_frl(HdmiForumFrl::Rate6Gbps4Lanes);
    assert!(matches!(
        check(&sink, &source, &cable, HdmiForumFrl::Rate8Gbps4Lanes),
        Some(Violation::FrlRateExceeded { .. })
    ));
    // But 6G 4-lane itself is fine.
    assert!(check(&sink, &source, &cable, HdmiForumFrl::Rate6Gbps4Lanes).is_none());
}
