#![allow(unused_imports, dead_code)]

use concordance::builder::NegotiatorBuilder;
use concordance::display::{
    Cea861Capabilities, ColorBitDepth, ColorBitDepths, ColorCapabilities, ColorFormat, ColorimetryBlock,
    ColorimetryFlags, DigitalColorEncoding, DisplayCapabilities, HdmiDscMaxSlices, HdmiForumDsc, HdmiForumFrl,
    HdmiForumSinkCap, HdmiVsdb, HdmiVsdbFlags, HdrStaticMetadata, StereoFormat, SyncType, TimingSource, VideoMode,
};
use concordance::engine::checks::{
    BitDepthCheck, BuiltinCheck, ColorEncodingCheck, DscCheck, FrlCeilingCheck, PixelClockCheck, RefreshRateCheck,
    TmdsClockCheck,
};
use concordance::engine::rule::{ConstraintRule, Layered, TaggingAdapter};
use concordance::engine::{CheckResult, ConstraintEngine, DefaultConstraintEngine};
use concordance::enumerator::{CandidateEnumerator, DefaultEnumerator, SliceEnumerator};
use concordance::output::config::NegotiatedConfig;
use concordance::output::trace::{Adjustment, DecisionStep, ReasoningTrace};
use concordance::output::warning::{LimitSource, TaggedViolation, Violation, Warning};
use concordance::probe::is_config_viable;
use concordance::ranker::policy::NegotiationPolicy;
use concordance::ranker::{ConfigRanker, DefaultRanker};
use concordance::types::{
    sink_capabilities_from_display, CableCapabilities, CandidateConfig, DscCapabilities, HdmiSpec, QuirkFlags,
    SinkBuildWarning, SinkCapabilities, SourceCapabilities, SupportedModes,
};

fn mode() -> VideoMode {
    VideoMode::new(1920, 1080, 60, false)
}

fn config(mode: &VideoMode) -> CandidateConfig<'_> {
    CandidateConfig {
        mode,
        color_encoding: ColorFormat::Rgb444,
        bit_depth: ColorBitDepth::Depth8,
        frl_rate: HdmiForumFrl::NotSupported,
        dsc_enabled: false,
    }
}

fn sink() -> SinkCapabilities {
    SinkCapabilities::default()
}
fn source() -> SourceCapabilities {
    SourceCapabilities::default()
}
fn cable() -> CableCapabilities {
    CableCapabilities::default()
}

struct AlwaysPass;
struct FailEncoding;
struct FailDepth;

impl<V: From<Violation>> ConstraintRule<V> for AlwaysPass {
    fn display_name(&self) -> &'static str {
        "always_pass"
    }
    fn check(
        &self,
        _: &SinkCapabilities,
        _: &SourceCapabilities,
        _: &CableCapabilities,
        _: &CandidateConfig<'_>,
    ) -> Option<V> {
        None
    }
    fn spec_display_name(&self) -> &'static str {
        "always_pass"
    }
    fn spec_check(
        &self,
        _: &SinkCapabilities,
        _: &SourceCapabilities,
        _: &CableCapabilities,
        _: &CandidateConfig<'_>,
    ) -> Option<V> {
        None
    }
}

impl<V: From<Violation>> ConstraintRule<V> for FailEncoding {
    fn display_name(&self) -> &'static str {
        "fail_encoding"
    }
    fn check(
        &self,
        _: &SinkCapabilities,
        _: &SourceCapabilities,
        _: &CableCapabilities,
        _: &CandidateConfig<'_>,
    ) -> Option<V> {
        Some(Violation::ColorEncodingUnsupported.into())
    }
    fn spec_display_name(&self) -> &'static str {
        "fail_encoding"
    }
    fn spec_check(
        &self,
        _: &SinkCapabilities,
        _: &SourceCapabilities,
        _: &CableCapabilities,
        _: &CandidateConfig<'_>,
    ) -> Option<V> {
        Some(Violation::ColorEncodingUnsupported.into())
    }
}

impl<V: From<Violation>> ConstraintRule<V> for FailDepth {
    fn display_name(&self) -> &'static str {
        "fail_depth"
    }
    fn check(
        &self,
        _: &SinkCapabilities,
        _: &SourceCapabilities,
        _: &CableCapabilities,
        _: &CandidateConfig<'_>,
    ) -> Option<V> {
        Some(Violation::BitDepthUnsupported.into())
    }
    fn spec_display_name(&self) -> &'static str {
        "fail_depth"
    }
    fn spec_check(
        &self,
        _: &SinkCapabilities,
        _: &SourceCapabilities,
        _: &CableCapabilities,
        _: &CandidateConfig<'_>,
    ) -> Option<V> {
        Some(Violation::BitDepthUnsupported.into())
    }
}

// --- TaggingAdapter ---

#[test]
fn tagging_adapter_display_name_delegates_to_inner() {
    let adapter = TaggingAdapter(AlwaysPass);
    assert_eq!(
        ConstraintRule::<TaggedViolation<Violation>>::display_name(&adapter),
        "always_pass"
    );
    let adapter = TaggingAdapter(FailEncoding);
    assert_eq!(
        ConstraintRule::<TaggedViolation<Violation>>::display_name(&adapter),
        "fail_encoding"
    );
}

// --- Layered<R1, R2> as ConstraintRule ---

#[test]
fn layered_rule_display_name_is_layered() {
    let rule: Layered<AlwaysPass, AlwaysPass> = Layered::new(AlwaysPass, AlwaysPass);
    assert_eq!(ConstraintRule::<Violation>::display_name(&rule), "layered");
}

#[test]
fn layered_rule_both_pass() {
    let m = mode();
    let rule = Layered::new(AlwaysPass, AlwaysPass);
    let result = ConstraintRule::<Violation>::check(&rule, &sink(), &source(), &cable(), &config(&m));
    assert!(result.is_none());
}

#[test]
fn layered_rule_base_fails_short_circuits() {
    let m = mode();
    // Base returns ColorEncodingUnsupported; extra would return BitDepthUnsupported.
    // Only the base violation is present: the base short-circuits.
    let rule = Layered::new(FailEncoding, FailDepth);
    let result = ConstraintRule::<Violation>::check(&rule, &sink(), &source(), &cable(), &config(&m));
    assert!(matches!(result, Some(Violation::ColorEncodingUnsupported)));
}

#[test]
fn layered_rule_base_passes_extra_fails() {
    let m = mode();
    let rule = Layered::new(AlwaysPass, FailDepth);
    let result = ConstraintRule::<Violation>::check(&rule, &sink(), &source(), &cable(), &config(&m));
    assert!(matches!(result, Some(Violation::BitDepthUnsupported)));
}

// --- Layered<E, R> as ConstraintEngine ---

fn empty_engine() -> DefaultConstraintEngine {
    DefaultConstraintEngine::with_checks(vec![])
}

#[test]
fn layered_engine_both_pass() {
    let m = mode();
    let engine = Layered::new(empty_engine(), TaggingAdapter(AlwaysPass));
    assert!(engine.check(&sink(), &source(), &cable(), &config(&m)).is_ok());
}

#[test]
fn layered_engine_base_passes_extra_fails() {
    let m = mode();
    let engine = Layered::new(empty_engine(), TaggingAdapter(FailDepth));
    let violations = engine.check(&sink(), &source(), &cable(), &config(&m)).unwrap_err();
    assert!(violations.iter().any(|v| matches!(v.violation, Violation::BitDepthUnsupported)));
}

#[test]
fn layered_engine_base_fails_extra_violation_also_collected() {
    let m = mode();
    // Base engine with ColorEncodingCheck; default sink → no color caps → fires.
    let engine = Layered::new(
        DefaultConstraintEngine::with_checks(vec![ColorEncodingCheck]),
        TaggingAdapter(FailDepth),
    );
    let violations = engine.check(&sink(), &source(), &cable(), &config(&m)).unwrap_err();
    assert!(violations.iter().any(|v| matches!(v.violation, Violation::ColorEncodingUnsupported)));
    assert!(violations.iter().any(|v| matches!(v.violation, Violation::BitDepthUnsupported)));
}

#[test]
fn layered_engine_base_fails_extra_passes_only_base_violations() {
    let m = mode();
    let engine = Layered::new(
        DefaultConstraintEngine::with_checks(vec![ColorEncodingCheck]),
        TaggingAdapter(AlwaysPass),
    );
    let violations = engine.check(&sink(), &source(), &cable(), &config(&m)).unwrap_err();
    assert_eq!(violations.len(), 1);
    assert!(matches!(violations[0].violation, Violation::ColorEncodingUnsupported));
}

// --- DefaultConstraintEngine over a caller's own violation type ---

#[derive(Debug)]
enum MyViolation {
    Builtin(Violation),
    HdrCertificationFailed,
}

impl From<Violation> for MyViolation {
    fn from(v: Violation) -> Self {
        MyViolation::Builtin(v)
    }
}

struct MyHdrCheck;

impl ConstraintRule<MyViolation> for MyHdrCheck {
    fn display_name(&self) -> &'static str {
        "my_hdr_check"
    }
    fn check(
        &self,
        _: &SinkCapabilities,
        _: &SourceCapabilities,
        _: &CableCapabilities,
        _: &CandidateConfig<'_>,
    ) -> Option<MyViolation> {
        Some(MyViolation::HdrCertificationFailed)
    }
    fn spec_display_name(&self) -> &'static str {
        "my_hdr_check"
    }
    fn spec_check(
        &self,
        _: &SinkCapabilities,
        _: &SourceCapabilities,
        _: &CableCapabilities,
        _: &CandidateConfig<'_>,
    ) -> Option<MyViolation> {
        Some(MyViolation::HdrCertificationFailed)
    }
}

#[test]
fn default_engine_collects_custom_violations_tagged_by_rule() {
    let m = mode();
    let engine = DefaultConstraintEngine::<MyViolation, MyHdrCheck>::with_checks(vec![MyHdrCheck, MyHdrCheck]);
    let violations = engine.check(&sink(), &source(), &cable(), &config(&m)).unwrap_err();
    assert_eq!(violations.len(), 2);
    assert_eq!(violations[0].rule, "my_hdr_check");
    assert!(matches!(violations[0].violation, MyViolation::HdrCertificationFailed));
}

#[test]
fn default_engine_over_custom_violation_accepts_with_no_rules() {
    let m = mode();
    let engine = DefaultConstraintEngine::<MyViolation, MyHdrCheck>::with_checks(vec![]);
    assert!(engine.check(&sink(), &source(), &cable(), &config(&m)).unwrap().is_empty());
}

#[test]
fn cloned_engine_applies_the_same_rules() {
    let engine = DefaultConstraintEngine::default();
    let cloned = engine.clone();
    assert_eq!(engine.checks(), cloned.checks());
    assert_eq!(format!("{engine:?}"), format!("{cloned:?}"));
}
