#![allow(unused_imports, dead_code)]

use concordance::builder::NegotiatorBuilder;
use concordance::display::{
    Cea861Capabilities, ColorBitDepth, ColorBitDepths, ColorCapabilities, ColorFormat, ColorimetryBlock,
    ColorimetryFlags, DigitalColorEncoding, DisplayCapabilities, HdmiDscMaxSlices, HdmiForumDsc, HdmiForumFrl,
    HdmiForumSinkCap, HdmiVsdb, HdmiVsdbFlags, HdrStaticMetadata, StereoFormat, SyncType, TimingSource, VideoMode,
};
use concordance::engine::checks::{
    BitDepthCheck, BuiltinCheck, ColorEncodingCheck, DscCheck, FrlCeilingCheck, PixelClockCheck, RefreshRateCheck,
    TmdsClockCheck,
};
use concordance::engine::rule::{ConstraintRule, Layered, TaggingAdapter};
use concordance::engine::{CheckResult, ConstraintEngine, DefaultConstraintEngine};
use concordance::enumerator::{CandidateEnumerator, DefaultEnumerator, SliceEnumerator};
use concordance::output::config::NegotiatedConfig;
use concordance::output::trace::{Adjustment, DecisionStep, ReasoningTrace};
use concordance::output::warning::{LimitSource, TaggedViolation, Violation, Warning};
use concordance::probe::is_config_viable;
use concordance::ranker::policy::NegotiationPolicy;
use concordance::ranker::{ConfigRanker, DefaultRanker};
use concordance::types::{
    sink_capabilities_from_display, CableCapabilities, CandidateConfig, DscCapabilities, HdmiSpec, QuirkFlags,
    SinkBuildWarning, SinkCapabilities, SourceCapabilities, SupportedModes,
};

/// Cloning gives an engine that behaves identically to the engine it was cloned from.
#[test]
fn clone_produces_equivalent_engine() {
    let source_engine = DefaultConstraintEngine::default();
    let cloned = source_engine.clone();
    // Both format identically: same check list, same display names.
    assert_eq!(format!("{source_engine:?}"), format!("{cloned:?}"));
}

/// The `Debug` output lists the rules by display name.
#[test]
fn debug_lists_rule_names() {
    let engine = DefaultConstraintEngine::default();
    let output = format!("{engine:?}");
    assert!(!output.is_empty());
    // Spot-check one well-known built-in rule name.
    assert!(output.contains("frl_ceiling"), "expected 'frl_ceiling' in debug output, got: {output}");
}
