#![allow(unused_imports, dead_code)]

use concordance::builder::NegotiatorBuilder;
use concordance::display::{
    Cea861Capabilities, ColorBitDepth, ColorBitDepths, ColorCapabilities, ColorFormat, ColorimetryBlock,
    ColorimetryFlags, DigitalColorEncoding, DisplayCapabilities, HdmiDscMaxSlices, HdmiForumDsc, HdmiForumFrl,
    HdmiForumSinkCap, HdmiVsdb, HdmiVsdbFlags, HdrStaticMetadata, StereoFormat, SyncType, TimingSource, VideoMode,
};
use concordance::engine::checks::{
    BitDepthCheck, BuiltinCheck, ColorEncodingCheck, DscCheck, FrlCeilingCheck, PixelClockCheck, RefreshRateCheck,
    TmdsClockCheck,
};
use concordance::engine::rule::{ConstraintRule, Layered, TaggingAdapter};
use concordance::engine::{CheckResult, ConstraintEngine, DefaultConstraintEngine};
use concordance::enumerator::{CandidateEnumerator, DefaultEnumerator, SliceEnumerator};
use concordance::output::config::NegotiatedConfig;
use concordance::output::trace::{Adjustment, DecisionStep, ReasoningTrace};
use concordance::output::warning::{LimitSource, TaggedViolation, Violation, Warning};
use concordance::probe::is_config_viable;
use concordance::ranker::policy::NegotiationPolicy;
use concordance::ranker::{ConfigRanker, DefaultRanker};
use concordance::types::{
    sink_capabilities_from_display, CableCapabilities, CandidateConfig, DscCapabilities, HdmiSpec, QuirkFlags,
    SinkBuildWarning, SinkCapabilities, SourceCapabilities, SupportedModes,
};

// ── stubs ─────────────────────────────────────────────────────────────────

/// Engine that accepts every candidate with no warnings.
struct AcceptAllEngine;

impl ConstraintEngine for AcceptAllEngine {
    type Warning = Warning;
    type Violation = Violation;

    fn spec_check(
        &self,
        _: &SinkCapabilities,
        _: &SourceCapabilities,
        _: &CableCapabilities,
        _: &CandidateConfig<'_>,
    ) -> Result<vstd::seq::Seq<Warning>, vstd::seq::Seq<Violation>> {
        unreachable!("a specification function is never executed")
    }

    fn check(
        &self,
        _: &SinkCapabilities,
        _: &SourceCapabilities,
        _: &CableCapabilities,
        _: &CandidateConfig<'_>,
    ) -> CheckResult<Warning, Violation> {
        Ok(Vec::new())
    }
}

/// Engine that rejects every candidate with a fixed violation.
struct RejectAllEngine;

impl ConstraintEngine for RejectAllEngine {
    type Warning = Warning;
    type Violation = Violation;

    fn spec_check(
        &self,
        _: &SinkCapabilities,
        _: &SourceCapabilities,
        _: &CableCapabilities,
        _: &CandidateConfig<'_>,
    ) -> Result<vstd::seq::Seq<Warning>, vstd::seq::Seq<Violation>> {
        unreachable!("a specification function is never executed")
    }

    fn check(
        &self,
        _: &SinkCapabilities,
        _: &SourceCapabilities,
        _: &CableCapabilities,
        _: &CandidateConfig<'_>,
    ) -> CheckResult<Warning, Violation> {
        Err(vec![Violation::ColorEncodingUnsupported])
    }
}

/// Ranker that reverses the accepted list, inverting whatever order the default ranker
/// would have produced.
struct ReverseRanker;

impl ConfigRanker for ReverseRanker {
    type Warning = Warning;

    fn spec_ranks(
        &self,
        _: vstd::seq::Seq<NegotiatedConfig<Warning>>,
        _: NegotiationPolicy,
        _: vstd::seq::Seq<NegotiatedConfig<Warning>>,
    ) -> bool {
        unreachable!("a specification function is never executed")
    }

    fn rank(&self, mut configs: Vec<NegotiatedConfig<Warning>>, _: &NegotiationPolicy) -> Vec<NegotiatedConfig<Warning>> {
        configs.reverse();
        configs
    }
}

/// Constraint rule that always produces a violation, regardless of input.
struct AlwaysRejectRule;

impl ConstraintRule<Violation> for AlwaysRejectRule {
    fn display_name(&self) -> &'static str {
        "always_reject"
    }

    fn check(
        &self,
        _: &SinkCapabilities,
        _: &SourceCapabilities,
        _: &CableCapabilities,
        _: &CandidateConfig<'_>,
    ) -> Option<Violation> {
        Some(Violation::ColorEncodingUnsupported)
    }
    fn spec_display_name(&self) -> &'static str {
        "always_reject"
    }
    fn spec_check(
        &self,
        _: &SinkCapabilities,
        _: &SourceCapabilities,
        _: &CableCapabilities,
        _: &CandidateConfig<'_>,
    ) -> Option<Violation> {
        Some(Violation::ColorEncodingUnsupported)
    }
}

// ── helpers ───────────────────────────────────────────────────────────────

/// Sink with RGB 8 bpc and no declared modes (modes come from the enumerator).
fn rgb8_sink() -> SinkCapabilities {
    let mut caps = ColorCapabilities::default();
    caps.rgb444 = ColorBitDepths::only(ColorBitDepth::Depth8);
    SinkCapabilities { color_capabilities: caps, ..Default::default() }
}

// ── tests ─────────────────────────────────────────────────────────────────

/// `with_enumerator` replaces the default enumerator; the custom enumerator's mode list is
/// used even when the sink has no declared modes.
#[test]
fn with_enumerator_overrides_sink_modes() {
    let mode = VideoMode::new(1920, 1080, 60, false);
    let sink = rgb8_sink(); // no supported_modes
    let source = SourceCapabilities::default();
    let cable = CableCapabilities::unconstrained();
    let modes = [mode];

    let configs = NegotiatorBuilder::default()
        .with_enumerator(SliceEnumerator::new(&modes))
        .negotiate(&sink, &source, &cable);

    assert_eq!(configs.len(), 1);
    assert_eq!(configs[0].mode.width, 1920);
}

/// `with_engine` replaces the constraint check; a reject-all engine empties the result even
/// for a configuration that the default engine would accept.
#[test]
fn with_engine_replaces_constraint_check() {
    let mode = VideoMode::new(1920, 1080, 60, false);
    let sink = rgb8_sink();
    let source = SourceCapabilities::default();
    let cable = CableCapabilities::unconstrained();
    let modes = [mode];

    let configs = NegotiatorBuilder::default()
        .with_enumerator(SliceEnumerator::new(&modes))
        .with_engine(RejectAllEngine)
        .negotiate(&sink, &source, &cable);

    assert!(configs.is_empty(), "RejectAllEngine must eliminate all candidates");
}

/// `with_ranker` replaces the ordering step; the output reflects the custom ranker's order
/// rather than the default policy.
#[test]
fn with_ranker_replaces_ordering() {
    // Enumerated in slice order: 4K first, then 1080p.
    // The default best-quality ranker also puts 4K first (native resolution).
    // ReverseRanker inverts the accepted list, so 1080p appears first.
    let modes = [VideoMode::new(3840, 2160, 60, false), VideoMode::new(1920, 1080, 60, false)];
    let sink = rgb8_sink();
    let source = SourceCapabilities::default();
    let cable = CableCapabilities::unconstrained();

    let configs = NegotiatorBuilder::default()
        .with_enumerator(SliceEnumerator::new(&modes))
        .with_ranker(ReverseRanker)
        .negotiate(&sink, &source, &cable);

    assert_eq!(configs.len(), 2);
    assert_eq!(configs[0].mode.width, 1920, "ReverseRanker must put 1080p first");
    assert_eq!(configs[1].mode.width, 3840);
}

/// `with_extra_rule` appends a constraint on top of the default engine; a rule that always
/// rejects eliminates all candidates.
#[test]
fn with_extra_rule_applies_additional_constraint() {
    let mode = VideoMode::new(1920, 1080, 60, false);
    let sink = rgb8_sink();
    let source = SourceCapabilities::default();
    let cable = CableCapabilities::unconstrained();
    let modes = [mode];

    let configs = NegotiatorBuilder::default()
        .with_enumerator(SliceEnumerator::new(&modes))
        .with_extra_rule(AlwaysRejectRule)
        .negotiate(&sink, &source, &cable);

    assert!(configs.is_empty(), "AlwaysRejectRule must eliminate all candidates");
}

/// The pipeline deduplicates candidates that are identical across all five key fields;
/// supplying the same mode twice yields only one accepted config.
#[test]
fn negotiate_dedup_removes_identical_candidates() {
    let mode = VideoMode::new(1920, 1080, 60, false);
    let sink = rgb8_sink();
    let source = SourceCapabilities::default();
    let cable = CableCapabilities::unconstrained();
    let modes = [mode.clone(), mode];

    let configs = NegotiatorBuilder::default()
        .with_enumerator(SliceEnumerator::new(&modes))
        .negotiate(&sink, &source, &cable);

    assert_eq!(configs.len(), 1, "identical candidates must be deduplicated");
}

/// A custom engine that accepts everything keeps a candidate that the default engine
/// rejects.
#[test]
fn accept_all_engine_keeps_every_candidate() {
    let modes = [VideoMode::new(1920, 1080, 60, false)];
    let sink = rgb8_sink();
    let mut source = SourceCapabilities::default();
    source.max_tmds_clock = 50_000; // below the mode's TMDS clock
    let cable = CableCapabilities::unconstrained();
    let rejected = NegotiatorBuilder::default()
        .with_enumerator(SliceEnumerator::new(&modes))
        .negotiate(&sink, &source, &cable);
    assert!(rejected.is_empty());
    let configs = NegotiatorBuilder::default()
        .with_enumerator(SliceEnumerator::new(&modes))
        .with_engine(AcceptAllEngine)
        .negotiate(&sink, &source, &cable);
    // 1 mode × RGB × 8 bpc × TMDS (the sink has no HF-SCDB) × DSC off.
    assert_eq!(configs.len(), 1);
    assert!(configs[0].warnings.is_empty());
}

/// The extra rule is written against the inner violation type; its violations come out
/// tagged with the rule's display name.
#[test]
fn with_extra_rule_tags_the_rule_violation() {
    let mode = VideoMode::new(1920, 1080, 60, false);
    let sink = rgb8_sink();
    let source = SourceCapabilities::default();
    let cable = CableCapabilities::unconstrained();
    let modes = [mode];

    let (configs, rejected) = NegotiatorBuilder::default()
        .with_enumerator(SliceEnumerator::new(&modes))
        .with_extra_rule(AlwaysRejectRule)
        .negotiate_with_log(&sink, &source, &cable);

    assert!(configs.is_empty());
    assert!(!rejected.is_empty());
    for entry in &rejected {
        assert_eq!(entry.violations.len(), 1);
        assert_eq!(entry.violations[0].rule, "always_reject");
        assert_eq!(entry.violations[0].violation, Violation::ColorEncodingUnsupported);
    }
}
